//! Failures: what the store reports, and what an operation reports to its caller.

use vstd::prelude::*;

verus! {

/// Why the store refused or failed a request.
#[derive(Clone, Copy, Debug, PartialEq, Eq, Structural)]
pub enum StoreFailure {
    /// The row names a parent that does not exist.
    BrokenReference,
    /// Anything else: the store is unreachable, timed out or rejected the request.
    Other,
}

/// Why an operation on an entity failed.
///
/// Cache trouble never shows up here: a cache that misses, holds garbage or
/// refuses a write only costs a trip to the store.
#[derive(Clone, Copy, Debug, PartialEq, Eq, Structural)]
pub enum AccessError {
    /// The caller's input is malformed.
    ValidationError,
    /// The parent named by the input does not exist.
    BrokenReference,
    /// No entity has the requested id.
    NotFound,
    /// The store failed; the caller may try again.
    StoreError,
}

/// The error an operation reports when the store fails an insert.
pub open spec fn spec_insert_error(failure: StoreFailure) -> AccessError {
    match failure {
        StoreFailure::BrokenReference => AccessError::BrokenReference,
        StoreFailure::Other => AccessError::StoreError,
    }
}

/// Maps the failure of an insert to the error reported to the caller.
pub fn insert_error(failure: StoreFailure) -> (error: AccessError)
    ensures
        error == spec_insert_error(failure),
{
    match failure {
        StoreFailure::BrokenReference => AccessError::BrokenReference,
        StoreFailure::Other => AccessError::StoreError,
    }
}

} // verus!
