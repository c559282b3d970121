//! Response bodies of the conversion endpoints.

use vstd::prelude::*;

verus! {

/// An error reported to the caller of an endpoint.
pub struct ErrorResponse {
    pub message: String,
}

impl ErrorResponse {
    /// An error response carrying `message`.
    pub fn new(message: String) -> (r: ErrorResponse)
        ensures
            r.message == message,
    {
        ErrorResponse { message }
    }
}

} // verus!
