//! The answer for a request that failed inside the service.

use vstd::prelude::*;

verus! {

/// The HTTP status "internal server error".
pub const INTERNAL_SERVER_ERROR: u16 = 500;

/// An error as it is answered: a status and a text.
#[derive(Debug)]
pub struct ErrorResponse {
    pub status_code: u16,
    pub message: String,
}

impl ErrorResponse {
    /// An answer with the status "internal server error" and the given text.
    #[allow(non_snake_case)]
    pub fn InternalServerError(message: String) -> (response: ErrorResponse)
        ensures
            response.status_code == INTERNAL_SERVER_ERROR,
            response.message@ == message@,
    {
        ErrorResponse { status_code: INTERNAL_SERVER_ERROR, message }
    }
}

/// The answer for an error of which `message` is the text.
pub fn e500(message: String) -> (response: ErrorResponse)
    ensures
        response.status_code == INTERNAL_SERVER_ERROR,
        response.message@ == message@,
{
    ErrorResponse::InternalServerError(message)
}

} // verus!
