//! Plain data of the mesh and Reticulum networks, and their managers.

use std::sync::Arc;
use vstd::prelude::*;
use crate::identity::Identity;

verus! {

/// Counters of the mesh network.
#[derive(Debug, Clone, Copy, PartialEq, Eq, Structural)]
pub struct MeshStats {
    pub peer_count: usize,
    pub message_count: usize,
    pub uptime_seconds: u64,
}

/// One node of the mesh.
#[derive(Debug, Clone)]
pub struct MeshNode {
    pub id: String,
    pub name: String,
    pub is_online: bool,
}

/// The nodes of the mesh and the links between them, by node identifier.
#[derive(Debug, Clone)]
pub struct MeshTopology {
    pub nodes: Vec<MeshNode>,
    pub connections: Vec<(String, String)>,
}

/// Manager of the mesh network of one identity.
pub struct MeshManager {
    pub identity: Arc<Identity>,
}

impl MeshManager {
    /// The manager of the mesh of `identity`.
    pub fn new(identity: Arc<Identity>) -> (manager: Self)
        ensures
            manager.identity == identity,
    {
        MeshManager { identity }
    }

    /// Number of peers in the mesh. The manager tracks none.
    pub fn get_peer_count(&self) -> (count: usize)
        ensures
            count == 0,
    {
        0
    }
}

/// Counters of the Reticulum network.
#[derive(Debug, Clone, Copy, PartialEq, Eq, Structural)]
pub struct ReticulumStats {
    pub node_count: usize,
    pub message_count: usize,
    pub uptime_seconds: u64,
}

impl ReticulumStats {
    /// The counters of a network that counts nothing yet.
    pub fn zero() -> (stats: Self)
        ensures
            stats.node_count == 0,
            stats.message_count == 0,
            stats.uptime_seconds == 0,
    {
        ReticulumStats { node_count: 0, message_count: 0, uptime_seconds: 0 }
    }
}

/// The nodes of the Reticulum network and the links between them.
#[derive(Debug, Clone)]
pub struct ReticulumTopology {
    pub nodes: Vec<String>,
    pub connections: Vec<(String, String)>,
}

/// Manager of the Reticulum network of one identity.
pub struct ReticulumManager {
    pub identity: Arc<Identity>,
}

impl ReticulumManager {
    /// The manager of the Reticulum network of `identity`.
    pub fn new(identity: Arc<Identity>) -> (manager: Self)
        ensures
            manager.identity == identity,
    {
        ReticulumManager { identity }
    }
}

} // verus!
