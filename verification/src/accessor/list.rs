//! Listing the children of a parent: always read from the store, never cached.

use vstd::prelude::*;
use crate::error::{AccessError, StoreFailure};

verus! {

/// What a listing reports for what the store returned: the rows as they came,
/// or a store error.
pub open spec fn spec_list_by_parent<E>(listed: Result<Vec<E>, StoreFailure>) -> Result<
    Vec<E>,
    AccessError,
> {
    match listed {
        Ok(rows) => Ok(rows),
        Err(_) => Err(AccessError::StoreError),
    }
}

/// Turns what the store returned for the children of a parent into the
/// outcome of the listing.
pub fn list_by_parent<E>(listed: Result<Vec<E>, StoreFailure>) -> (outcome: Result<
    Vec<E>,
    AccessError,
>)
    ensures
        outcome == spec_list_by_parent(listed),
{
    match listed {
        Ok(rows) => Ok(rows),
        Err(_) => Err(AccessError::StoreError),
    }
}

} // verus!
