//! The error answers of the API.

use vstd::prelude::*;

verus! {

/// An error answer, with the message that goes back to the caller.
pub enum ApiError {
    BadRequest(String),
    Unauthorized(String),
    Forbidden(String),
    NotFound(String),
    Internal(String),
    NotImplemented(String),
}

/// The message of an error, as characters.
pub open spec fn error_message(e: ApiError) -> Seq<char> {
    match e {
        ApiError::BadRequest(m) => m@,
        ApiError::Unauthorized(m) => m@,
        ApiError::Forbidden(m) => m@,
        ApiError::NotFound(m) => m@,
        ApiError::Internal(m) => m@,
        ApiError::NotImplemented(m) => m@,
    }
}

} // verus!
