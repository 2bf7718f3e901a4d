//! The instance that applications work with.

use crate::defines::structs::CyphalInstance;
use crate::defines::typedefs::CyphalNodeID;
use vstd::prelude::*;

verus! {

/// The entry point of the codec: a node on the bus, and the transfer id that
/// its next transfer will carry.
pub struct CyphalMiddleware<const MTU: usize> {
    pub can_instance: CyphalInstance<MTU>,
    pub transfer_id: u8,
}

impl<const MTU: usize> CyphalMiddleware<MTU> {
    /// The node id that the instance sends under; a value above 127 means
    /// that it is anonymous.
    pub open spec fn spec_node_id(&self) -> CyphalNodeID {
        self.can_instance.node_id()
    }

    /// An instance for the node `node_id`, whose first transfer has the
    /// transfer id 0.
    pub fn new(node_id: CyphalNodeID) -> (r: Self)
        ensures
            r.node_id() == node_id,
            r.transfer_id == 0,
    {
        Self { can_instance: CyphalInstance::new(node_id), transfer_id: 0 }
    }

    /// The same instance under another node id.
    pub fn set_node_id(self, node_id: u8) -> (r: Self)
        ensures
            r.node_id() == node_id,
            r.transfer_id == self.transfer_id,
    {
        let mut this = self;
        this.can_instance = CyphalInstance::new(node_id);
        this
    }

    /// The node id that the instance sends under.
    #[verifier::when_used_as_spec(spec_node_id)]
    pub fn node_id(&self) -> (r: CyphalNodeID)
        ensures
            r == self.node_id(),
    {
        self.can_instance.node_id()
    }
}

} // verus!
