use vstd::prelude::*;

verus! {

/// The failures that the authentication endpoints can report.
#[derive(Debug, Clone, Copy, PartialEq, Eq)]
pub enum ServiceError {
    /// The user store could not be reached, or a session could not be written.
    InternalServerError,
    /// Wrong or unknown credentials, or a missing or invalid session.
    Unauthorized,
}

} // verus!
