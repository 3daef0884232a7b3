# mechanics-http-server

Opportunistic HTTP/3 (QUIC) listener with `Alt-Svc` header emission, for services that
already run their own HTTP/1.1 + HTTP/2 listener over TCP+TLS. TLS uses rustls with the
`aws-lc-rs` provider and ALPN `h3` only.

## Layout

- `src/` is the library, verified with Verus: the `Alt-Svc` value and its insertion into
  response headers, the 0-RTT replay-safety policy, the listener's configuration and start
  decision, the QUIC-side TLS configuration, the handle's state, and the decisions of the
  accept loop, of each connection, of each request and of each request body. Calls into
  `http`, `rustls` and `quinn` stand behind small trusted wrappers whose contracts state
  what those crates' sources show of the values the library relies on: the header values
  and maps, when rustls accepts a certificate and key (and its error when not), the key it
  signs with, the ALPN, early-data, provider and
  client-authentication settings, and the keep-alive and idle timeout. Left unsaid are the
  default transport settings that are overridden, quinn's random token key and the text of
  quinn's cipher-suite error.
- `app/` runs the asynchronous I/O around those decisions with tokio, quinn, h3 and tower,
  and offers the tower layer, the axum adapter and the public server API over std and http
  types.
- `tests/` exercises the library on concrete values.
