//! Opportunistic HTTP/3 server support for mechanics-family services: the verified core.
//!
//! The crate provides the decisions behind an opt-in HTTP/3 QUIC listener and a tower
//! middleware layer that emits `Alt-Svc` on the existing TCP+TLS path:
//!
//! - [`alt_svc`]: the `Alt-Svc` header value `h3=":<port>"; ma=<max-age>` and its insertion
//!   into response headers;
//! - [`zero_rtt`]: the conservative 0-RTT replay-safety policy;
//! - [`server`]: the listener's configuration, the start decision (inert without a bind
//!   address) and the state of the handle returned by starting it;
//! - [`tls`]: the QUIC-side rustls configuration (`aws-lc-rs`, ALPN `h3` only);
//! - [`serve`]: the decisions of the accept loop, of each connection and of each request;
//! - [`body`]: the decisions of the HTTP/3 request body's frame poller;
//! - [`error`]: the error type.

pub mod alt_svc;
pub mod body;
pub mod error;
pub mod serve;
pub mod server;
pub mod tls;
pub mod zero_rtt;

pub use alt_svc::{alt_svc_layer, insert_alt_svc, AltSvcLayer};
pub use body::H3RequestBodyError;
pub use error::{Error, Result};
pub use server::{Http3HandleState, Http3Server, Http3ServerConfig, SocketAddress};
pub use zero_rtt::{default_zero_rtt_methods, is_zero_rtt_safe, Method};
