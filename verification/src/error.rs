//! The error type that the services hand back to their callers.

use vstd::prelude::*;

verus! {

/// An error that a service call ends with. The variants follow the HTTP error
/// classes the API answers with.
#[derive(Debug, Clone, PartialEq, Eq)]
pub enum ApiError {
    BadRequest(String),
    NotFound(String),
    Unauthorized,
    Internal(String),
    Timeout,
    ExternalService(String),
    CircuitOpen(String),
    ServiceUnavailable(String),
}

/// `r` is a `BadRequest` error whose message reads `msg`.
pub open spec fn is_bad_request<T>(r: Result<T, ApiError>, msg: Seq<char>) -> bool {
    r matches Err(ApiError::BadRequest(m)) && m@ == msg
}

/// `r` is an `Internal` error whose message reads `msg`.
pub open spec fn is_internal<T>(r: Result<T, ApiError>, msg: Seq<char>) -> bool {
    r matches Err(ApiError::Internal(m)) && m@ == msg
}

} // verus!
