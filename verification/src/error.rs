//! Error types for the HTTP/3 server surface.
use vstd::prelude::*;

verus! {

/// Crate-local result alias.
pub type Result<T> = std::result::Result<T, Error>;

/// Errors returned by the HTTP/3 server.
#[non_exhaustive]
#[derive(Debug)]
pub enum Error {
    /// The caller supplied TLS material rustls could not use.
    InvalidTls(String),
    /// The QUIC endpoint could not bind its UDP socket.
    BindFailed(String),
    /// An internal QUIC, HTTP/3, tower, or task error occurred.
    Internal(String),
}

/// The variant of an [`Error`].
#[derive(Clone, Copy, Debug, PartialEq, Eq)]
pub enum ErrorKind {
    /// [`Error::InvalidTls`].
    InvalidTls,
    /// [`Error::BindFailed`].
    BindFailed,
    /// [`Error::Internal`].
    Internal,
}

impl View for Error {
    type V = (ErrorKind, Seq<char>);

    /// The variant and the detail text it carries.
    open spec fn view(&self) -> (ErrorKind, Seq<char>) {
        match self {
            Error::InvalidTls(s) => (ErrorKind::InvalidTls, s@),
            Error::BindFailed(s) => (ErrorKind::BindFailed, s@),
            Error::Internal(s) => (ErrorKind::Internal, s@),
        }
    }
}

/// The displayed text of an error of the given kind and detail.
pub open spec fn error_text(kind: ErrorKind, detail: Seq<char>) -> Seq<char> {
    match kind {
        ErrorKind::InvalidTls => "invalid TLS material: "@ + detail,
        ErrorKind::BindFailed => "QUIC endpoint bind failed: "@ + detail,
        ErrorKind::Internal => "internal: "@ + detail,
    }
}

impl Error {
    /// The variant of this error.
    pub fn kind(&self) -> (kind: ErrorKind)
        ensures
            kind == self@.0,
    {
        match self {
            Error::InvalidTls(_) => ErrorKind::InvalidTls,
            Error::BindFailed(_) => ErrorKind::BindFailed,
            Error::Internal(_) => ErrorKind::Internal,
        }
    }

    /// The detail text this error carries.
    pub fn detail(&self) -> (detail: &str)
        ensures
            detail@ == self@.1,
    {
        match self {
            Error::InvalidTls(s) => s.as_str(),
            Error::BindFailed(s) => s.as_str(),
            Error::Internal(s) => s.as_str(),
        }
    }

    /// The error's message: `invalid TLS material: <detail>`,
    /// `QUIC endpoint bind failed: <detail>` or `internal: <detail>`.
    pub fn message(&self) -> (text: String)
        ensures
            text@ == error_text(self@.0, self@.1),
    {
        let (mut text, detail) = match self {
            Error::InvalidTls(s) => (String::from_str("invalid TLS material: "), s),
            Error::BindFailed(s) => (String::from_str("QUIC endpoint bind failed: "), s),
            Error::Internal(s) => (String::from_str("internal: "), s),
        };
        text.append(detail.as_str());
        text
    }
}

/// An internal error whose detail is `prefix` followed by `detail`.
pub fn internal_error(prefix: &str, detail: &str) -> (e: Error)
    ensures
        e@ == (ErrorKind::Internal, prefix@ + detail@),
{
    let mut text = String::from_str(prefix);
    text.append(detail);
    Error::Internal(text)
}

} // verus!
