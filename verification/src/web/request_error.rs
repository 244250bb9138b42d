//! # Request Error
//!
//! The status a request that failed on an I/O error is answered with.

use vstd::prelude::*;

use crate::web::http_code::HttpCode;

verus! {

/// The kinds of I/O failure that decide the status of the answer.
#[derive(Debug, Clone, Copy, PartialEq, Eq, Structural)]
pub enum IoFailure {
    /// The entity was not found.
    NotFound,
    /// The operation lacked the necessary privileges.
    PermissionDenied,
    /// A quota was exceeded.
    QuotaExceeded,
    /// Any other failure.
    Other,
}

/// The status for an I/O failure: `404` when something was not found, `401`
/// when permission was denied, `429` when a quota was exceeded, `500`
/// otherwise.
pub fn io_failure_status(kind: IoFailure) -> (r: HttpCode)
    ensures
        r == (match kind {
            IoFailure::NotFound => HttpCode::NotFound,
            IoFailure::PermissionDenied => HttpCode::Unauthorized,
            IoFailure::QuotaExceeded => HttpCode::TooManyRequests,
            IoFailure::Other => HttpCode::InternalServerError,
        }),
{
    match kind {
        IoFailure::NotFound => HttpCode::NotFound,
        IoFailure::PermissionDenied => HttpCode::Unauthorized,
        IoFailure::QuotaExceeded => HttpCode::TooManyRequests,
        IoFailure::Other => HttpCode::InternalServerError,
    }
}

} // verus!
