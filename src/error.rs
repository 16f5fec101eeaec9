use vstd::prelude::*;

verus! {

/// The part of a request that cannot be sent.
#[derive(Debug, Clone, Copy, PartialEq, Eq, Structural)]
pub enum InvalidPart {
    /// The URL is not a well-formed absolute URL.
    Url,
    /// A header name or value holds a character that may not go on the wire.
    Header,
}

/// What kind of network failure ended a request.
#[derive(Debug, Clone, Copy, PartialEq, Eq, Structural)]
pub enum TransportKind {
    Timeout,
    ConnectionFailed,
    Other,
}

/// Why a request produced no decoded value.
#[derive(Debug, Clone, PartialEq, Eq)]
pub enum RequestError {
    /// Detected before any network traffic.
    InvalidRequest(InvalidPart),
    /// The exchange with the server failed.
    TransportError { kind: TransportKind, cause: String },
    /// The server answered with a status outside 200..=299.
    HttpStatusError { status: u16, body: String },
    /// The server answered with success, but the body is not of the expected shape.
    DecodeError { raw_body: String, cause: String },
}

} // verus!
