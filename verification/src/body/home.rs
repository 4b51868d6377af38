//! The body of a request that creates a home.

use vstd::prelude::*;
use crate::entities::home::HomeCU;

verus! {

/// What a caller sends to create a home.
pub struct HomeCreate<'a> {
    pub name: &'a str,
}

impl<'a> HomeCreate<'a> {
    /// The fields of the home to create, with a name of their own.
    pub fn to_fields(&self) -> (fields: HomeCU)
        ensures
            fields.name@ == self.name@,
    {
        HomeCU { name: self.name.to_owned() }
    }
}

} // verus!
