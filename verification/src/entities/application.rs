//! Applications: what runs in a home.

use vstd::prelude::*;
use crate::entity::{Entity, Updatable};

verus! {

/// An application as the store keeps it.
#[derive(Clone, Debug, PartialEq, Eq)]
pub struct Model {
    pub id: String,
    /// The home that the application belongs to.
    pub home_id: String,
    pub name: String,
    /// Microseconds since the Unix epoch.
    pub created_at: i64,
}

/// What a caller supplies to create an application.
#[derive(Clone, Debug, PartialEq, Eq)]
pub struct ApplicationCreate {
    pub name: String,
    pub home_id: String,
}

/// What a caller supplies to change an application.
#[derive(Clone, Debug, PartialEq, Eq)]
pub struct ApplicationUpdate {
    pub name: String,
}

impl Entity for Model {
    type Fields = ApplicationCreate;

    open spec fn spec_route() -> Seq<char> {
        "Application"@
    }

    fn route() -> (route: &'static str) {
        "Application"
    }

    proof fn lemma_route_plain() {
        reveal_strlit("Application");
    }

    open spec fn spec_id_length() -> usize {
        10
    }

    fn id_length() -> (length: usize) {
        10
    }

    open spec fn spec_id(&self) -> String {
        self.id
    }

    fn id(&self) -> (id: &String) {
        &self.id
    }

    open spec fn spec_parent(fields: &ApplicationCreate) -> Option<String> {
        Some(fields.home_id)
    }

    open spec fn spec_accepts(fields: &ApplicationCreate) -> bool {
        true
    }

    fn accepts(fields: &ApplicationCreate) -> (ok: bool) {
        true
    }

    open spec fn spec_row(id: String, fields: ApplicationCreate, created_at: i64) -> Self {
        Model { id, home_id: fields.home_id, name: fields.name, created_at }
    }

    proof fn lemma_row_id(id: String, fields: ApplicationCreate, created_at: i64) {
    }
}

impl Updatable for Model {
    type Changes = ApplicationUpdate;

    open spec fn spec_admits(changes: &ApplicationUpdate) -> bool {
        true
    }

    fn admits(changes: &ApplicationUpdate) -> (ok: bool) {
        true
    }

    open spec fn spec_apply(self, changes: ApplicationUpdate) -> Self {
        Model { name: changes.name, ..self }
    }

    fn apply(self, changes: ApplicationUpdate) -> (changed: Self) {
        Model {
            id: self.id,
            home_id: self.home_id,
            name: changes.name,
            created_at: self.created_at,
        }
    }

    proof fn lemma_apply_keeps_id(self, changes: ApplicationUpdate) {
    }
}

} // verus!
