use vstd::prelude::*;

verus! {

/// HTTP status of a request whose method the matched path does not serve.
pub const METHOD_NOT_ALLOWED: u16 = 405;

/// The machine-readable kinds of error that the dispatch layer itself produces.
#[derive(Clone, Copy, Debug, PartialEq, Eq, Structural)]
pub enum ErrorKind {
    /// The request matched no route, or no method of its route.
    Unrecognized,
    /// The endpoint is not available to guests, nor implemented for others.
    GuestAccessForbidden,
}

/// The protocol error code of a kind.
pub open spec fn errcode_of(k: ErrorKind) -> Seq<char> {
    match k {
        ErrorKind::Unrecognized => "M_UNRECOGNIZED"@,
        ErrorKind::GuestAccessForbidden => "M_GUEST_ACCESS_FORBIDDEN"@,
    }
}

/// The HTTP status that a bad request of kind `k` is answered with.
pub open spec fn status_of(k: ErrorKind) -> u16 {
    match k {
        ErrorKind::Unrecognized => 404,
        ErrorKind::GuestAccessForbidden => 403,
    }
}

/// Whether a status is a client error.
pub open spec fn is_client_error(status: u16) -> bool {
    400 <= status < 500
}

/// The uniform error body handed to clients: a kind, a message and a status.
#[derive(Clone, Debug)]
pub struct ErrorEnvelope {
    pub kind: ErrorKind,
    pub message: String,
    pub http_status: u16,
}

impl ErrorKind {
    /// The protocol error code of this kind, as it goes on the wire.
    pub fn errcode(&self) -> (r: String)
        ensures
            r@ == errcode_of(*self),
    {
        match self {
            ErrorKind::Unrecognized => "M_UNRECOGNIZED".to_string(),
            ErrorKind::GuestAccessForbidden => "M_GUEST_ACCESS_FORBIDDEN".to_string(),
        }
    }
}

/// The envelope for a bad request of kind `kind` with the given message.
pub fn bad_request(kind: ErrorKind, message: &str) -> (r: ErrorEnvelope)
    ensures
        r.kind == kind,
        r.message@ == message@,
        r.http_status == status_of(kind),
{
    let http_status: u16 = match kind {
        ErrorKind::Unrecognized => 404,
        ErrorKind::GuestAccessForbidden => 403,
    };
    ErrorEnvelope { kind, message: message.to_string(), http_status }
}

/// The message of the envelope that answers a request no route matched.
pub open spec fn unrecognized_message() -> Seq<char> {
    "Unrecognized request"@
}

/// The message of the envelope that answers a request of the retired initial-sync endpoint.
pub open spec fn guest_access_message() -> Seq<char> {
    "Guest access not implemented"@
}

/// The message of the envelope that replaces a method-not-allowed response.
pub open spec fn method_mismatch_message() -> Seq<char> {
    "M_UNRECOGNIZED: Unrecognized request"@
}

/// The response of the catch-all route: whatever the path, an `Unrecognized` bad request.
pub fn not_found() -> (r: ErrorEnvelope)
    ensures
        r.kind == ErrorKind::Unrecognized,
        r.message@ == unrecognized_message(),
        r.http_status == 404,
        is_client_error(r.http_status),
{
    bad_request(ErrorKind::Unrecognized, "Unrecognized request")
}

/// The response of the legacy room initial-sync endpoint, which is deliberately left
/// unimplemented: a guest-access-forbidden error for every caller.
pub fn initial_sync() -> (r: ErrorEnvelope)
    ensures
        r.kind == ErrorKind::GuestAccessForbidden,
        r.message@ == guest_access_message(),
        r.http_status == 403,
        is_client_error(r.http_status),
{
    bad_request(ErrorKind::GuestAccessForbidden, "Guest access not implemented")
}

/// What the method-correction stage makes of the status that the inner pipeline
/// produced: a method-not-allowed status is replaced by an `Unrecognized` envelope
/// that keeps the status; any other response passes through unchanged (`None`).
pub fn unrecognized_method(inner_status: u16) -> (r: Option<ErrorEnvelope>)
    ensures
        inner_status == METHOD_NOT_ALLOWED <==> r is Some,
        r matches Some(e) ==> e.kind == ErrorKind::Unrecognized
            && e.message@ == method_mismatch_message()
            && e.http_status == METHOD_NOT_ALLOWED && is_client_error(e.http_status),
{
    if inner_status == METHOD_NOT_ALLOWED {
        Some(
            ErrorEnvelope {
                kind: ErrorKind::Unrecognized,
                message: "M_UNRECOGNIZED: Unrecognized request".to_string(),
                http_status: METHOD_NOT_ALLOWED,
            },
        )
    } else {
        None
    }
}

} // verus!
