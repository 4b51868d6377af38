//! Sensor data: the readings that arrive in a data container.

use vstd::prelude::*;
use crate::entity::Entity;
use crate::json::{json_parses, parses_as_json};

verus! {

/// A reading as the store keeps it.
#[derive(Clone, Debug, PartialEq, Eq)]
pub struct Model {
    pub id: String,
    /// The data container that the reading arrived in.
    pub container_id: String,
    /// What was read, as JSON text; the registry never looks inside.
    pub data: Option<String>,
    /// Microseconds since the Unix epoch.
    pub created_at: i64,
}

/// What a caller supplies to record a reading.
#[derive(Clone, Debug, PartialEq, Eq)]
pub struct SensorDataCreate {
    pub container_id: String,
    /// What was read, as JSON text.
    pub data: String,
}

impl Entity for Model {
    type Fields = SensorDataCreate;

    open spec fn spec_route() -> Seq<char> {
        "SensorData"@
    }

    fn route() -> (route: &'static str) {
        "SensorData"
    }

    proof fn lemma_route_plain() {
        reveal_strlit("SensorData");
    }

    open spec fn spec_id_length() -> usize {
        21
    }

    fn id_length() -> (length: usize) {
        21
    }

    open spec fn spec_id(&self) -> String {
        self.id
    }

    fn id(&self) -> (id: &String) {
        &self.id
    }

    open spec fn spec_parent(fields: &SensorDataCreate) -> Option<String> {
        Some(fields.container_id)
    }

    /// A reading needs data that reads as JSON.
    open spec fn spec_accepts(fields: &SensorDataCreate) -> bool {
        json_parses(fields.data@)
    }

    fn accepts(fields: &SensorDataCreate) -> (ok: bool) {
        parses_as_json(fields.data.as_str())
    }

    open spec fn spec_row(id: String, fields: SensorDataCreate, created_at: i64) -> Self {
        Model { id, container_id: fields.container_id, data: Some(fields.data), created_at }
    }

    proof fn lemma_row_id(id: String, fields: SensorDataCreate, created_at: i64) {
    }
}

} // verus!
