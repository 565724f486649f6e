//! The application's error taxonomy: what a caller is told when an
//! operation is rejected or fails.

use vstd::prelude::*;

verus! {

/// The application-level error surfaced to HTTP callers.
pub enum MyAppError {
    /// Something failed on the server's side.
    InternalError { msg: String },
    /// The caller's input was rejected before it reached the registry.
    BadClientData { msg: String },
    /// The referenced row or resource does not exist.
    NotFound,
}

impl MyAppError {
    /// The HTTP status code each error maps to.
    pub fn status_code(&self) -> (r: u16)
        ensures
            (self matches MyAppError::InternalError { .. }) ==> r == 500,
            (self matches MyAppError::BadClientData { .. }) ==> r == 400,
            (self matches MyAppError::NotFound) ==> r == 404,
    {
        match self {
            MyAppError::InternalError { .. } => 500,
            MyAppError::BadClientData { .. } => 400,
            MyAppError::NotFound => 404,
        }
    }
}

/// Why the task-list provider gave no notes.
#[derive(Clone, Copy, Debug, PartialEq, Eq, Structural)]
pub enum NoteRepoError {
    /// The provider's API could not be reached or answered malformed data.
    NotionAPIError,
}

} // verus!
