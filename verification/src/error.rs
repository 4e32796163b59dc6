use vstd::prelude::*;

verus! {

/// How a failed request is classified: the transport failed, the payload
/// could not be decoded into the expected shape, or a caller chose to
/// record a non-success HTTP status code.
#[derive(Clone, Copy, Debug, PartialEq, Eq, Structural)]
pub enum ErrorKind {
    Network,
    Decode,
    HttpStatus(u16),
}

/// A classified failure together with a human-readable message.
#[derive(Debug)]
pub struct ErrorDetail {
    pub kind: ErrorKind,
    pub message: String,
}

impl Clone for ErrorDetail {
    fn clone(&self) -> (r: Self)
        ensures
            r == *self,
    {
        ErrorDetail { kind: self.kind, message: self.message.clone() }
    }
}

impl ErrorDetail {
    /// A connection or transport failure.
    pub fn network(message: String) -> (r: Self)
        ensures
            r.kind == ErrorKind::Network,
            r.message == message,
    {
        ErrorDetail { kind: ErrorKind::Network, message }
    }

    /// A payload that could not be parsed into the expected shape.
    pub fn decode(message: String) -> (r: Self)
        ensures
            r.kind == ErrorKind::Decode,
            r.message == message,
    {
        ErrorDetail { kind: ErrorKind::Decode, message }
    }

    /// A caller-level reading of a non-success HTTP status code.
    pub fn http_status(code: u16, message: String) -> (r: Self)
        ensures
            r.kind == ErrorKind::HttpStatus(code),
            r.message == message,
    {
        ErrorDetail { kind: ErrorKind::HttpStatus(code), message }
    }
}

} // verus!
