[package]
name = "mechanics-http-server"
version = "0.1.4"
edition = "2021"
publish = false

[dependencies]
axum = { version = "0.8", default-features = false }
bytes = "1"
h3 = "0.0.8"
h3-quinn = "0.0.10"
http = "1"
http-body = "1"
quinn = { version = "0.11", default-features = false, features = ["runtime-tokio", "rustls-aws-lc-rs"] }
rustls = { version = "0.23", default-features = false, features = ["aws_lc_rs", "std", "tls12"] }
thiserror = "2"
tokio = { version = "1", features = ["rt", "rt-multi-thread", "macros", "sync", "net", "time"] }
tower = { version = "0.5", features = ["util"] }
tracing = "0.1"
