//! The health probe: its entity, its payloads, and the service that
//! answers it.

use vstd::prelude::*;
use vstd::string::StringExecFns;

use crate::error::Error;

verus! {

/// The health entity: the service's status in one word.
pub struct Health {
    pub status: String,
}

/// The health payload of a query response.
pub struct HealthPayload {
    pub status: String,
}

/// The health payload wrapped as a whole response body.
pub struct HealthResponse {
    pub data: HealthPayload,
}

impl From<Health> for HealthPayload {
    fn from(health: Health) -> (r: Self) {
        HealthPayload { status: health.status }
    }
}

impl vstd::std_specs::convert::FromSpecImpl<Health> for HealthPayload {
    open spec fn obeys_from_spec() -> bool {
        true
    }

    open spec fn from_spec(health: Health) -> Self {
        HealthPayload { status: health.status }
    }
}

/// The health service.
pub struct Service;

impl Service {
    pub fn new() -> Service {
        Service
    }

    /// A running service always answers "running".
    pub fn get_health(&self) -> (r: Result<Health, Error>)
        ensures
            (match r {
                Ok(h) => h.status@ == "running"@,
                Err(_) => false,
            }),
    {
        let health = Health { status: String::from_str("running") };
        Ok(health)
    }
}

} // verus!
