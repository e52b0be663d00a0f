//! The service's error taxonomy and the mapping of HTTP statuses into it.

use crate::digits::{dec_digits, u16_to_string};
use vstd::prelude::*;

verus! {

/// A failed request, with a human-readable message.
///
/// Every non-success outcome lands in exactly one kind: a 400 status in
/// `InvalidRequest`, a 500 status in `ServerError`, an undecodable body
/// of a successful response in `InvalidResponse`, and everything else
/// (other failing statuses, transport failures, a missing required
/// header) in the catch-all `UnexpectedError`.
#[derive(Debug, Eq, PartialEq, Clone, Hash)]
pub enum RequestError {
    /// The upstream service rejected the request shape (status 400).
    InvalidRequest(String),
    /// A successful response's body could not be decoded.
    InvalidResponse(String),
    /// The upstream service failed internally (status 500).
    ServerError(String),
    /// Any other failure: an unclassified status, a transport failure,
    /// or a missing required header.
    UnexpectedError(String),
}

/// The description of an error: its kind, then its message.
pub open spec fn describe_chars(e: RequestError) -> Seq<char> {
    match e {
        RequestError::InvalidRequest(m) => "Request error: "@ + m@,
        RequestError::InvalidResponse(m) => "Invalid response: "@ + m@,
        RequestError::ServerError(m) => "Server error: "@ + m@,
        RequestError::UnexpectedError(m) => "Unexpected error: "@ + m@,
    }
}

impl RequestError {
    /// This error rendered as text, exactly as [`describe_chars`] lays
    /// it out.
    pub fn describe(&self) -> (r: String)
        ensures
            r@ == describe_chars(*self),
    {
        let (prefix, m): (&str, &String) = match self {
            RequestError::InvalidRequest(m) => ("Request error: ", m),
            RequestError::InvalidResponse(m) => ("Invalid response: ", m),
            RequestError::ServerError(m) => ("Server error: ", m),
            RequestError::UnexpectedError(m) => ("Unexpected error: ", m),
        };
        let mut r = prefix.to_owned();
        r.append(m.as_str());
        r
    }
}

/// Whether a status denotes a failed request: the client-error and
/// server-error classes. Every other status proceeds to entity decoding.
pub open spec fn is_error_status(status: u16) -> bool {
    400 <= status <= 599
}

/// Whether a status denotes a failed request, decided exactly as
/// [`is_error_status`] states.
pub fn is_failing_status(status: u16) -> (r: bool)
    ensures
        r == is_error_status(status),
{
    400 <= status && status <= 599
}

/// How a failing status maps into the taxonomy: 400 becomes
/// `InvalidRequest` and 500 `ServerError`, both carrying the message
/// unchanged; every other status becomes `UnexpectedError` carrying the
/// numeric status and then the message.
pub open spec fn status_error_matches(status: u16, message: Seq<char>, e: RequestError) -> bool {
    match e {
        RequestError::InvalidRequest(m) => status == 400 && m@ == message,
        RequestError::ServerError(m) => status == 500 && m@ == message,
        RequestError::UnexpectedError(m) => status != 400 && status != 500 && m@ == dec_digits(
            status as nat,
        ) + " "@ + message,
        RequestError::InvalidResponse(_) => false,
    }
}

/// Maps a failing HTTP status and the transport's description of it to
/// the typed error, exactly as [`status_error_matches`] prescribes.
pub fn status_error(status: u16, message: String) -> (r: RequestError)
    ensures
        status_error_matches(status, message@, r),
{
    if status == 400 {
        RequestError::InvalidRequest(message)
    } else if status == 500 {
        RequestError::ServerError(message)
    } else {
        let mut m = u16_to_string(status);
        m.append(" ");
        m.append(message.as_str());
        RequestError::UnexpectedError(m)
    }
}

} // verus!
