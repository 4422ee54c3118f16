//! How an HTTP status code decides the outcome of a call.
use vstd::prelude::*;
use crate::error::VernachainError;

verus! {

/// The status codes that count as success: 200 to 299.
pub open spec fn is_success_code(code: u16) -> bool {
    200 <= code <= 299
}

/// What a status code asks of the caller.
#[derive(Debug, Clone, Copy, PartialEq, Eq, Structural)]
pub enum StatusClass {
    /// Decode the body as the result.
    Success,
    /// 401: the API key was refused.
    Unauthorized,
    /// 429: too many requests.
    RateLimited,
    /// Any other failure: the body's text describes it.
    Failure,
}

pub open spec fn status_class(code: u16) -> StatusClass {
    if is_success_code(code) {
        StatusClass::Success
    } else if code == 401 {
        StatusClass::Unauthorized
    } else if code == 429 {
        StatusClass::RateLimited
    } else {
        StatusClass::Failure
    }
}

/// Classifies a status code.
pub fn classify_status(code: u16) -> (r: StatusClass)
    ensures
        r == status_class(code),
{
    if 200 <= code && code <= 299 {
        StatusClass::Success
    } else if code == 401 {
        StatusClass::Unauthorized
    } else if code == 429 {
        StatusClass::RateLimited
    } else {
        StatusClass::Failure
    }
}

/// Whether the class of a status code asks for the body's text before the
/// error can be formed.
pub fn needs_error_text(code: u16) -> (r: bool)
    ensures
        r == (status_class(code) == StatusClass::Failure),
{
    classify_status(code) == StatusClass::Failure
}

/// The error that a response with status `code` fails with, if any.
/// `error_text` is the body's text; it is read only for the class `Failure`.
pub fn status_error(code: u16, error_text: String) -> (r: Option<VernachainError>)
    ensures
        is_success_code(code) <==> r is None,
        status_class(code) == StatusClass::Unauthorized
            <==> r == Some(VernachainError::AuthenticationError),
        status_class(code) == StatusClass::RateLimited
            <==> r == Some(VernachainError::RateLimitError),
        status_class(code) == StatusClass::Failure
            <==> r == Some(VernachainError::NetworkError(error_text)),
{
    match classify_status(code) {
        StatusClass::Success => None,
        StatusClass::Unauthorized => Some(VernachainError::AuthenticationError),
        StatusClass::RateLimited => Some(VernachainError::RateLimitError),
        StatusClass::Failure => Some(VernachainError::NetworkError(error_text)),
    }
}

} // verus!
