//! The build metadata: its entity and service. The values themselves come
//! from the build environment, which the outer program reads.

use vstd::prelude::*;

verus! {

/// The build metadata entity.
pub struct Meta {
    pub build: String,
    pub version: String,
}

/// The metadata service.
pub struct Service;

impl Service {
    pub fn new() -> Service {
        Service
    }
}

} // verus!
