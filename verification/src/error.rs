//! The error taxonomy for backend work.
//!
//! A failure a downstream service reported keeps that service's own status;
//! a downstream answer that violates its contract (success with a missing
//! payload) is an unexpected error, surfaced to the caller only as an opaque
//! internal failure.

use vstd::prelude::*;

verus! {

/// The status a backend reported for a failed call: its own error code and
/// message, carried through unchanged.
#[derive(Debug, Clone, PartialEq, Eq)]
pub struct RpcStatus {
    pub code: i32,
    pub message: String,
}

/// What can go wrong between this service and its backends.
#[derive(Debug, PartialEq, Eq)]
pub enum ApplicationError {
    /// A downstream service reported a failure of its own.
    SubServiceError(RpcStatus),
    /// A downstream service answered successfully but violated its contract.
    UnexpectedError(&'static str),
}

impl ApplicationError {
    pub fn unexpected_error(message: &'static str) -> (r: Self)
        ensures
            r == ApplicationError::UnexpectedError(message),
    {
        ApplicationError::UnexpectedError(message)
    }
}

} // verus!
