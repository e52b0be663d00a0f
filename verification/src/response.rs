//! Classification of HTTP outcomes and materialisation of image
//! payloads.
//!
//! The transport hands the library a plain [`HttpOutcome`]; everything
//! that follows — status classification, header extraction, body
//! handling — is decided here.

use crate::decode::{
    details_from_json, details_list_from_json, details_matches, details_ok_of, json_parse,
    list_decode_matches, parsed_json,
};
use crate::entities::{Image, ImageDetails};
use crate::error::{
    is_error_status, is_failing_status, status_error, status_error_matches, RequestError,
};
use vstd::prelude::*;

verus! {

/// The observable parts of a received HTTP response.
pub struct ResponseParts {
    /// The numeric status code.
    pub status: u16,
    /// The transport's human-readable description of a failing status;
    /// ignored when the status is not a failure.
    pub status_message: String,
    /// The value of the `picsum-id` response header, when present.
    pub picsum_id: Option<String>,
    /// The body bytes, or the message of the failure that kept them
    /// from being read.
    pub body: Result<Vec<u8>, String>,
}

/// What one request/response exchange produced: a response, or a
/// transport-level failure (connection, timeout) with no response at
/// all.
pub enum HttpOutcome {
    Response(ResponseParts),
    TransportFailure(String),
}

/// How an image fetch turns an outcome into a result.
///
/// A transport failure is an `UnexpectedError` with its message; a
/// failing status maps per [`status_error_matches`]. On a successful
/// status, a missing `picsum-id` header is an `UnexpectedError` (never
/// an `InvalidResponse`), an unreadable body an `UnexpectedError`
/// naming the read failure, and otherwise the image is the header id
/// together with the raw body bytes.
pub open spec fn image_result_matches(outcome: HttpOutcome, r: Result<Image, RequestError>) -> bool {
    match outcome {
        HttpOutcome::TransportFailure(m) => match r {
            Err(RequestError::UnexpectedError(m2)) => m2@ == m@,
            _ => false,
        },
        HttpOutcome::Response(p) => if is_error_status(p.status) {
            match r {
                Err(e) => status_error_matches(p.status, p.status_message@, e),
                Ok(_) => false,
            }
        } else {
            match p.picsum_id {
                None => match r {
                    Err(RequestError::UnexpectedError(m2)) => m2@ == missing_header_chars(),
                    _ => false,
                },
                Some(id) => match p.body {
                    Err(bm) => match r {
                        Err(RequestError::UnexpectedError(m2)) => m2@ == "Couldn't read response body: "@
                            + bm@,
                        _ => false,
                    },
                    Ok(bytes) => match r {
                        Ok(img) => img.id@ == id@ && img.data@ == bytes@,
                        Err(_) => false,
                    },
                },
            }
        },
    }
}

/// The message reported when the required `picsum-id` header is absent.
pub open spec fn missing_header_chars() -> Seq<char> {
    "Couldn't retrieve `picsum-id` header."@
}

/// Turns the outcome of an image fetch (by id or random) into the typed
/// result, exactly as [`image_result_matches`] prescribes.
pub fn image_from_outcome(outcome: HttpOutcome) -> (r: Result<Image, RequestError>)
    ensures
        image_result_matches(outcome, r),
{
    match outcome {
        HttpOutcome::TransportFailure(m) => Err(RequestError::UnexpectedError(m)),
        HttpOutcome::Response(p) => {
            if is_failing_status(p.status) {
                Err(status_error(p.status, p.status_message))
            } else {
                match p.picsum_id {
                    None => Err(
                        RequestError::UnexpectedError(
                            "Couldn't retrieve `picsum-id` header.".to_owned(),
                        ),
                    ),
                    Some(id) => match p.body {
                        Err(bm) => {
                            let mut m = "Couldn't read response body: ".to_owned();
                            m.append(bm.as_str());
                            Err(RequestError::UnexpectedError(m))
                        },
                        Ok(bytes) => Ok(Image { id, data: bytes }),
                    },
                }
            }
        },
    }
}

/// How a details lookup turns an outcome into a result.
///
/// A transport failure is an `UnexpectedError` with its message; a
/// failing status maps per [`status_error_matches`]. On a successful
/// status, a body that could not be read is an `InvalidResponse` with
/// the read failure's message, and a body that does not parse as JSON
/// an `InvalidResponse`; a parsed body yields the record named by the
/// decode if and only if it is well-formed, else an `InvalidResponse`.
pub open spec fn details_result_matches(
    outcome: HttpOutcome,
    r: Result<ImageDetails, RequestError>,
) -> bool {
    match outcome {
        HttpOutcome::TransportFailure(m) => match r {
            Err(RequestError::UnexpectedError(m2)) => m2@ == m@,
            _ => false,
        },
        HttpOutcome::Response(p) => if is_error_status(p.status) {
            match r {
                Err(e) => status_error_matches(p.status, p.status_message@, e),
                Ok(_) => false,
            }
        } else {
            match p.body {
                Err(bm) => match r {
                    Err(RequestError::InvalidResponse(m2)) => m2@ == bm@,
                    _ => false,
                },
                Ok(bytes) => match parsed_json(bytes@) {
                    None => r matches Err(RequestError::InvalidResponse(_)),
                    Some(v) => {
                        &&& (details_ok_of(v) ==> (r matches Ok(d) && details_matches(v, d)))
                        &&& (!details_ok_of(v) ==> r matches Err(RequestError::InvalidResponse(_)))
                    },
                },
            }
        },
    }
}

/// How a list request turns an outcome into a result: as a details
/// lookup, except that a parsed body decodes element for element per
/// [`list_decode_matches`].
pub open spec fn list_result_matches(
    outcome: HttpOutcome,
    r: Result<Vec<ImageDetails>, RequestError>,
) -> bool {
    match outcome {
        HttpOutcome::TransportFailure(m) => match r {
            Err(RequestError::UnexpectedError(m2)) => m2@ == m@,
            _ => false,
        },
        HttpOutcome::Response(p) => if is_error_status(p.status) {
            match r {
                Err(e) => status_error_matches(p.status, p.status_message@, e),
                Ok(_) => false,
            }
        } else {
            match p.body {
                Err(bm) => match r {
                    Err(RequestError::InvalidResponse(m2)) => m2@ == bm@,
                    _ => false,
                },
                Ok(bytes) => match parsed_json(bytes@) {
                    None => r matches Err(RequestError::InvalidResponse(_)),
                    Some(v) => list_decode_matches(v, r),
                },
            }
        },
    }
}

/// Turns the outcome of a details lookup into the typed result, exactly
/// as [`details_result_matches`] prescribes.
pub fn details_from_outcome(outcome: HttpOutcome) -> (r: Result<ImageDetails, RequestError>)
    ensures
        details_result_matches(outcome, r),
{
    match outcome {
        HttpOutcome::TransportFailure(m) => Err(RequestError::UnexpectedError(m)),
        HttpOutcome::Response(p) => {
            if is_failing_status(p.status) {
                Err(status_error(p.status, p.status_message))
            } else {
                match p.body {
                    Err(bm) => Err(RequestError::InvalidResponse(bm)),
                    Ok(bytes) => match json_parse(bytes.as_slice()) {
                        Err(e) => Err(RequestError::InvalidResponse(e)),
                        Ok(v) => details_from_json(&v),
                    },
                }
            }
        },
    }
}

/// Turns the outcome of a list request into the typed result, exactly
/// as [`list_result_matches`] prescribes.
pub fn details_list_from_outcome(outcome: HttpOutcome) -> (r: Result<
    Vec<ImageDetails>,
    RequestError,
>)
    ensures
        list_result_matches(outcome, r),
{
    match outcome {
        HttpOutcome::TransportFailure(m) => Err(RequestError::UnexpectedError(m)),
        HttpOutcome::Response(p) => {
            if is_failing_status(p.status) {
                Err(status_error(p.status, p.status_message))
            } else {
                match p.body {
                    Err(bm) => Err(RequestError::InvalidResponse(bm)),
                    Ok(bytes) => match json_parse(bytes.as_slice()) {
                        Err(e) => Err(RequestError::InvalidResponse(e)),
                        Ok(v) => details_list_from_json(&v),
                    },
                }
            }
        },
    }
}

} // verus!
