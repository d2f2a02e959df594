//! The identity of the local node.

use vstd::prelude::*;

verus! {

/// The identity under which the node is known to its peers.
#[derive(Debug, Clone)]
pub struct Identity {
    pub id: String,
}

impl Identity {
    /// The identity with identifier `id`.
    pub fn with_id(id: String) -> (identity: Self)
        ensures
            identity.id@ == id@,
    {
        Identity { id }
    }
}

} // verus!
