use vstd::prelude::*;

use crate::error::{RequestError, TransportKind};

verus! {

/// A status code in the success class.
pub open spec fn is_success_status(status: u16) -> bool {
    200 <= status < 300
}

/// Relies on `http::StatusCode::from_u16` (re-exported by reqwest), which accepts
/// 100..=999, and `StatusCode::is_success`, which holds for 200..=299.
#[verifier::external_body]
fn status_is_success(status: u16) -> (r: bool)
    ensures
        r == is_success_status(status),
{
    match reqwest::StatusCode::from_u16(status) {
        Ok(code) => code.is_success(),
        Err(_) => false,
    }
}

/// Classifies a response by its status. A success status hands the raw body on
/// for decoding; any other status fails with the status and the body kept.
pub fn check_status(status: u16, body: String) -> (r: Result<String, RequestError>)
    ensures
        is_success_status(status) ==> r == Ok::<String, RequestError>(body),
        !is_success_status(status) ==> r == Err::<String, RequestError>(
            (RequestError::HttpStatusError { status, body }),
        ),
{
    if status_is_success(status) {
        Ok(body)
    } else {
        Err(RequestError::HttpStatusError { status, body })
    }
}

/// The result of a request with a success status, given what decoding its raw
/// body gave: the decoded value, or a decode error that keeps the raw body.
pub fn decode_outcome<T>(raw_body: String, decoded: Result<T, String>) -> (r: Result<T, RequestError>)
    ensures
        decoded matches Ok(v) ==> r == Ok::<T, RequestError>(v),
        decoded matches Err(cause) ==> r == Err::<T, RequestError>(
            (RequestError::DecodeError { raw_body, cause }),
        ),
{
    match decoded {
        Ok(v) => Ok(v),
        Err(cause) => Err(RequestError::DecodeError { raw_body, cause }),
    }
}

/// The error for a failed exchange: a timeout is reported as such even when the
/// connection also failed.
pub fn transport_failure(timed_out: bool, connect_failed: bool, cause: String) -> (r: RequestError)
    ensures
        timed_out ==> r == (RequestError::TransportError { kind: TransportKind::Timeout, cause }),
        !timed_out && connect_failed ==> r == (RequestError::TransportError {
            kind: TransportKind::ConnectionFailed,
            cause,
        }),
        !timed_out && !connect_failed ==> r == (RequestError::TransportError {
            kind: TransportKind::Other,
            cause,
        }),
{
    let kind = if timed_out {
        TransportKind::Timeout
    } else if connect_failed {
        TransportKind::ConnectionFailed
    } else {
        TransportKind::Other
    };
    RequestError::TransportError { kind, cause }
}

} // verus!
