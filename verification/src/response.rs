//! The uniform response envelope: every operation's outcome crosses the
//! transport boundary as a status class together with an optional payload.

use vstd::prelude::*;

verus! {

/// The envelope that every successful or failed operation is rendered into.
#[derive(Debug, PartialEq, Eq)]
pub struct ApiResponse<T> {
    /// The HTTP status class of the outcome.
    pub status: u16,
    /// The payload of a success, or the message of a failure.
    pub data: Option<T>,
}

impl<T> ApiResponse<T> {
    /// Wraps a successful outcome's payload.
    pub fn success(status: u16, data: T) -> (r: ApiResponse<T>)
        ensures
            r.status == status,
            r.data == Some(data),
    {
        ApiResponse { status, data: Some(data) }
    }

    /// Wraps a failure's message.
    pub fn failure(status: u16, data: T) -> (r: ApiResponse<T>)
        ensures
            r.status == status,
            r.data == Some(data),
    {
        ApiResponse { status, data: Some(data) }
    }
}

} // verus!
