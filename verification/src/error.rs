//! The closed error taxonomy of this layer, and the mapping from raw HTTP
//! error responses to typed errors.

use vstd::prelude::*;

verus! {

/// Classification of every failure this layer can report.
#[derive(Clone, Copy, PartialEq, Eq, Structural, Debug)]
pub enum ErrorKind {
    /// Bad or missing configuration at construction time.
    ConfigInvalid,
    /// The operation is not supported by this backend.
    Unsupported,
    /// The object does not exist.
    NotFound,
    /// A conditional request failed its precondition.
    PreconditionFailed,
    /// An unanticipated status; the raw status and body are retained.
    Unexpected,
    /// A connection, timeout or stream failure from the transport.
    TransportFailure,
}

/// A single tagged error value with its kind and retained context.
#[derive(Clone, Debug)]
pub struct Error {
    /// What class of failure this is.
    pub kind: ErrorKind,
    /// A short human-readable description.
    pub message: String,
    /// The HTTP status that produced this error, when one did.
    pub status: Option<u16>,
    /// The raw response body, retained for diagnostics.
    pub body: Vec<u8>,
}

impl Error {
    /// Build an error that carries no HTTP context.
    pub fn new(kind: ErrorKind, message: &str) -> (r: Error)
        ensures
            r.kind == kind,
            r.message@ == message@,
            r.status is None,
            r.body@ == Seq::<u8>::empty(),
    {
        Error { kind, message: message.to_owned(), status: None, body: Vec::new() }
    }

    /// The kind of this error.
    pub fn kind(&self) -> (r: ErrorKind)
        ensures
            r == self.kind,
    {
        self.kind
    }
}

/// The kind an error HTTP response of the given status maps to.
pub open spec fn error_kind_of_status(status: u16) -> ErrorKind {
    if status == 404 {
        ErrorKind::NotFound
    } else if status == 412 {
        ErrorKind::PreconditionFailed
    } else {
        ErrorKind::Unexpected
    }
}

/// Turn an error HTTP response into a typed error: 404 is NotFound, 412 is
/// PreconditionFailed, and anything else is Unexpected; the status and the
/// raw body are always retained as context.
pub fn parse_error(status: u16, body: Vec<u8>) -> (r: Error)
    ensures
        r.kind == error_kind_of_status(status),
        r.status == Some(status),
        r.body@ == body@,
{
    let kind = if status == 404 {
        ErrorKind::NotFound
    } else if status == 412 {
        ErrorKind::PreconditionFailed
    } else {
        ErrorKind::Unexpected
    };
    Error { kind, message: "unexpected response from the service".to_owned(), status: Some(status), body }
}

} // verus!
