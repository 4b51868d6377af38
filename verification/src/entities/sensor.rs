//! Sensors: what an application reads from.

use vstd::prelude::*;
use crate::entity::{Entity, Updatable};

verus! {

/// A sensor as the store keeps it.
#[derive(Clone, Debug, PartialEq, Eq)]
pub struct Model {
    pub id: String,
    /// The application that the sensor belongs to.
    pub application_id: String,
    pub name: String,
    /// Microseconds since the Unix epoch.
    pub created_at: i64,
}

/// What a caller supplies to create a sensor.
#[derive(Clone, Debug, PartialEq, Eq)]
pub struct SensorCreate {
    pub name: String,
    pub application_id: String,
}

/// What a caller supplies to change a sensor.
#[derive(Clone, Debug, PartialEq, Eq)]
pub struct SensorUpdate {
    pub name: String,
}

impl Entity for Model {
    type Fields = SensorCreate;

    open spec fn spec_route() -> Seq<char> {
        "Sensor"@
    }

    fn route() -> (route: &'static str) {
        "Sensor"
    }

    proof fn lemma_route_plain() {
        reveal_strlit("Sensor");
    }

    open spec fn spec_id_length() -> usize {
        10
    }

    fn id_length() -> (length: usize) {
        10
    }

    open spec fn spec_id(&self) -> String {
        self.id
    }

    fn id(&self) -> (id: &String) {
        &self.id
    }

    open spec fn spec_parent(fields: &SensorCreate) -> Option<String> {
        Some(fields.application_id)
    }

    open spec fn spec_accepts(fields: &SensorCreate) -> bool {
        true
    }

    fn accepts(fields: &SensorCreate) -> (ok: bool) {
        true
    }

    open spec fn spec_row(id: String, fields: SensorCreate, created_at: i64) -> Self {
        Model { id, application_id: fields.application_id, name: fields.name, created_at }
    }

    proof fn lemma_row_id(id: String, fields: SensorCreate, created_at: i64) {
    }
}

impl Updatable for Model {
    type Changes = SensorUpdate;

    open spec fn spec_admits(changes: &SensorUpdate) -> bool {
        true
    }

    fn admits(changes: &SensorUpdate) -> (ok: bool) {
        true
    }

    open spec fn spec_apply(self, changes: SensorUpdate) -> Self {
        Model { name: changes.name, ..self }
    }

    fn apply(self, changes: SensorUpdate) -> (changed: Self) {
        Model {
            id: self.id,
            application_id: self.application_id,
            name: changes.name,
            created_at: self.created_at,
        }
    }

    proof fn lemma_apply_keeps_id(self, changes: SensorUpdate) {
    }
}

} // verus!
