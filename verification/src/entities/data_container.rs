//! Data containers: where a sensor's data collects.

use vstd::prelude::*;
use crate::entity::Entity;

verus! {

/// A data container as the store keeps it.
#[derive(Clone, Debug, PartialEq, Eq)]
pub struct Model {
    pub id: String,
    /// The sensor that the container belongs to.
    pub sensor_id: String,
    /// Microseconds since the Unix epoch.
    pub created_at: i64,
}

/// What a caller supplies to create a data container.
#[derive(Clone, Debug, PartialEq, Eq)]
pub struct DataContainerCreate {
    pub sensor_id: String,
}

impl Entity for Model {
    type Fields = DataContainerCreate;

    open spec fn spec_route() -> Seq<char> {
        "DataContainer"@
    }

    fn route() -> (route: &'static str) {
        "DataContainer"
    }

    proof fn lemma_route_plain() {
        reveal_strlit("DataContainer");
    }

    open spec fn spec_id_length() -> usize {
        10
    }

    fn id_length() -> (length: usize) {
        10
    }

    open spec fn spec_id(&self) -> String {
        self.id
    }

    fn id(&self) -> (id: &String) {
        &self.id
    }

    open spec fn spec_parent(fields: &DataContainerCreate) -> Option<String> {
        Some(fields.sensor_id)
    }

    open spec fn spec_accepts(fields: &DataContainerCreate) -> bool {
        true
    }

    fn accepts(fields: &DataContainerCreate) -> (ok: bool) {
        true
    }

    open spec fn spec_row(id: String, fields: DataContainerCreate, created_at: i64) -> Self {
        Model { id, sensor_id: fields.sensor_id, created_at }
    }

    proof fn lemma_row_id(id: String, fields: DataContainerCreate, created_at: i64) {
    }
}

} // verus!
