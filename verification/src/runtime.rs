//! The runtime-side RPC façade. Its reconciliation surface is out of scope
//! and carried, not implemented; what it does decide is here: a controller
//! registration answers with the registered name itself as the opaque
//! controller token, and a resource creation is acknowledged empty.

use vstd::prelude::*;

verus! {

/// The (empty) acknowledgement of a resource creation.
pub struct RuntimeCreateResponse {}

/// The runtime service. It holds no state of its own.
#[derive(Clone, Copy)]
pub struct RuntimeService {}

impl RuntimeService {
    /// A runtime service.
    pub fn new() -> RuntimeService {
        RuntimeService {  }
    }

    /// Answers a controller registration: the opaque controller token is
    /// the controller's own declared name, unchanged.
    pub fn register_controller(&self, controller_name: String) -> (token: String)
        ensures
            token@ == controller_name@,
    {
        controller_name
    }

    /// Acknowledges a resource creation.
    pub fn create(&self) -> RuntimeCreateResponse {
        RuntimeCreateResponse {  }
    }
}

} // verus!
