//! The entity types, from the root of the hierarchy down.

use vstd::prelude::*;
use crate::entity::Entity;

pub mod application;
pub mod data_container;
pub mod home;
pub mod sensor;
pub mod sensor_data;
pub mod subscribers;

verus! {

/// No two entity types share a route, so no two of them share a cache key.
pub proof fn lemma_routes_differ()
    ensures
        home::Model::spec_route() != application::Model::spec_route(),
        home::Model::spec_route() != sensor::Model::spec_route(),
        home::Model::spec_route() != data_container::Model::spec_route(),
        home::Model::spec_route() != sensor_data::Model::spec_route(),
        home::Model::spec_route() != subscribers::Model::spec_route(),
        application::Model::spec_route() != sensor::Model::spec_route(),
        application::Model::spec_route() != data_container::Model::spec_route(),
        application::Model::spec_route() != sensor_data::Model::spec_route(),
        application::Model::spec_route() != subscribers::Model::spec_route(),
        sensor::Model::spec_route() != data_container::Model::spec_route(),
        sensor::Model::spec_route() != sensor_data::Model::spec_route(),
        sensor::Model::spec_route() != subscribers::Model::spec_route(),
        data_container::Model::spec_route() != sensor_data::Model::spec_route(),
        data_container::Model::spec_route() != subscribers::Model::spec_route(),
        sensor_data::Model::spec_route() != subscribers::Model::spec_route(),
{
    reveal_strlit("Home");
    reveal_strlit("Application");
    reveal_strlit("Sensor");
    reveal_strlit("DataContainer");
    reveal_strlit("SensorData");
    reveal_strlit("Subscriber");
    assert("Home"@.len() == 4);
    assert("Application"@.len() == 11);
    assert("Sensor"@.len() == 6);
    assert("DataContainer"@.len() == 13);
    assert("SensorData"@.len() == 10);
    assert("Subscriber"@.len() == 10);
    assert("SensorData"@[1] != "Subscriber"@[1]);
}

} // verus!
