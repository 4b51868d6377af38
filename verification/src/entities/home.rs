//! Homes: the sites at the root of the hierarchy.

use vstd::prelude::*;
use crate::entity::{Entity, Updatable};

verus! {

/// A home as the store keeps it.
#[derive(Clone, Debug, PartialEq, Eq)]
pub struct Model {
    pub id: String,
    /// Microseconds since the Unix epoch.
    pub created_at: i64,
    pub name: String,
}

/// What a caller supplies to create or to change a home.
#[derive(Clone, Debug, PartialEq, Eq)]
pub struct HomeCU {
    pub name: String,
}

/// A home needs a name.
pub open spec fn spec_valid_name(name: Seq<char>) -> bool {
    name.len() > 0
}

impl Entity for Model {
    type Fields = HomeCU;

    open spec fn spec_route() -> Seq<char> {
        "Home"@
    }

    fn route() -> (route: &'static str) {
        "Home"
    }

    proof fn lemma_route_plain() {
        reveal_strlit("Home");
    }

    open spec fn spec_id_length() -> usize {
        10
    }

    fn id_length() -> (length: usize) {
        10
    }

    open spec fn spec_id(&self) -> String {
        self.id
    }

    fn id(&self) -> (id: &String) {
        &self.id
    }

    open spec fn spec_parent(fields: &HomeCU) -> Option<String> {
        None
    }

    open spec fn spec_accepts(fields: &HomeCU) -> bool {
        spec_valid_name(fields.name@)
    }

    fn accepts(fields: &HomeCU) -> (ok: bool) {
        !fields.name.as_str().is_empty()
    }

    open spec fn spec_row(id: String, fields: HomeCU, created_at: i64) -> Self {
        Model { id, created_at, name: fields.name }
    }

    proof fn lemma_row_id(id: String, fields: HomeCU, created_at: i64) {
    }
}

impl Updatable for Model {
    type Changes = HomeCU;

    open spec fn spec_admits(changes: &HomeCU) -> bool {
        spec_valid_name(changes.name@)
    }

    fn admits(changes: &HomeCU) -> (ok: bool) {
        !changes.name.as_str().is_empty()
    }

    open spec fn spec_apply(self, changes: HomeCU) -> Self {
        Model { name: changes.name, ..self }
    }

    fn apply(self, changes: HomeCU) -> (changed: Self) {
        Model { id: self.id, created_at: self.created_at, name: changes.name }
    }

    proof fn lemma_apply_keeps_id(self, changes: HomeCU) {
    }
}

} // verus!
