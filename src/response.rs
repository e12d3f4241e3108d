//! The envelope in which a failure reaches the client, and the HTTP status
//! codes this core uses.
use vstd::prelude::*;

verus! {

pub const STATUS_BAD_REQUEST: u16 = 400;

pub const STATUS_UNAUTHORIZED: u16 = 401;

pub const STATUS_NOT_FOUND: u16 = 404;

pub const STATUS_CONFLICT: u16 = 409;

pub const STATUS_INTERNAL_SERVER_ERROR: u16 = 500;

/// The body of a failed response: a client-safe message and the status code.
/// The full internal error travels beside it, for the log only.
#[derive(Clone, Debug)]
pub struct ErrorResponse {
    pub message: String,
    pub status: u16,
}

pub open spec fn is_internal_server_error(r: ErrorResponse) -> bool {
    r.status == STATUS_INTERNAL_SERVER_ERROR && r.message@ == "Internal Server Error"@
}

impl ErrorResponse {
    /// The generic answer to a failure that the client cannot act on.
    pub fn internal_server_error() -> (r: ErrorResponse)
        ensures
            is_internal_server_error(r),
    {
        ErrorResponse {
            message: String::from_str("Internal Server Error"),
            status: STATUS_INTERNAL_SERVER_ERROR,
        }
    }
}

impl Default for ErrorResponse {
    fn default() -> (r: ErrorResponse)
        ensures
            is_internal_server_error(r),
    {
        ErrorResponse::internal_server_error()
    }
}

} // verus!
