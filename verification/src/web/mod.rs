//! What the HTTP interface exchanges, and the decisions behind its
//! answers. Serving requests is not part of it.

pub mod diagnostics;
pub mod peers;
pub mod scan;

use vstd::prelude::*;
use crate::mesh::{MeshStats, ReticulumStats};

verus! {

/// Asks to send a message.
#[derive(Debug, Clone)]
pub struct SendMessageRequest {
    pub recipient: String,
    pub message: String,
}

/// Answers with the identifier of the sent message.
#[derive(Debug, Clone)]
pub struct SendMessageResponse {
    pub message_id: String,
}

/// A peer as the interface reports it.
#[derive(Debug, Clone)]
pub struct PeerInfo {
    pub id: String,
    pub name: String,
    pub status: String,
    pub last_seen: String,
    pub public_key: Option<String>,
}

/// Answers with the peers.
#[derive(Debug, Clone)]
pub struct PeersResponse {
    pub peers: Vec<PeerInfo>,
}

/// The settings that the interface takes and gives.
#[derive(Debug, Clone, Copy, PartialEq, Eq, Structural)]
pub struct Settings {
    pub stealth_mode: bool,
    pub encryption_enabled: bool,
    pub peer_count: usize,
}

/// The envelope of every answer: the data of a success, or the error of a
/// failure.
#[derive(Debug, Clone)]
pub struct ApiResponse<T> {
    pub success: bool,
    pub data: Option<T>,
    pub error: Option<String>,
}

impl<T> ApiResponse<T> {
    /// The answer that succeeded with `data`.
    pub fn ok(data: T) -> (response: Self)
        ensures
            response.success,
            response.data == Some(data),
            response.error.is_none(),
    {
        ApiResponse { success: true, data: Some(data), error: None }
    }

    /// The answer that failed with the message `error`.
    pub fn failed(error: String) -> (response: Self)
        ensures
            !response.success,
            response.data.is_none(),
            response.error == Some(error),
    {
        ApiResponse { success: false, data: None, error: Some(error) }
    }

    /// The answer that succeeded without data.
    pub fn empty() -> (response: Self)
        ensures
            response.success,
            response.data.is_none(),
            response.error.is_none(),
    {
        ApiResponse { success: true, data: None, error: None }
    }
}

/// Announces a peer.
#[derive(Debug, Clone)]
pub struct PeerDiscoveryRequest {
    pub peer_id: String,
    pub peer_name: String,
    pub public_key: String,
    pub address: String,
}

/// A node that a scan of the network found.
#[derive(Debug, Clone)]
pub struct DiscoveredPeer {
    pub ip: String,
    pub port: u16,
    pub username: String,
    pub node_id: String,
    pub public_key: String,
    pub last_seen: String,
    pub status: String,
}

/// Answers with what a scan of the network found.
#[derive(Debug, Clone)]
pub struct NetworkScanResponse {
    pub discovered_peers: Vec<DiscoveredPeer>,
    pub scan_time: String,
}

/// Asks to set the name of the user.
#[derive(Debug, Clone)]
pub struct UsernameRequest {
    pub username: String,
}

/// Reports an error of another node.
#[derive(Debug, Clone)]
pub struct ErrorReportRequest {
    pub error: String,
}

/// Asks to connect to, or disconnect from, a peer.
#[derive(Debug, Clone)]
pub struct PeerConnectionRequest {
    pub peer_id: String,
    pub peer_name: String,
    pub peer_ip: String,
    pub peer_port: u16,
    pub message: Option<String>,
}

/// Answers that a request to connect was sent.
#[derive(Debug, Clone)]
pub struct PeerConnectionResponse {
    pub connection_id: String,
    pub status: String,
    pub peer_info: PeerInfo,
}

/// Accepts or rejects a request to connect.
#[derive(Debug, Clone)]
pub struct PeerConnectionAcceptRequest {
    pub connection_id: String,
    pub accept: bool,
    pub message: Option<String>,
}

/// A request to connect, as one node sends it to another.
#[derive(Debug, Clone)]
pub struct ConnectionRequest {
    pub id: String,
    pub from_peer_id: String,
    pub from_peer_name: String,
    pub from_peer_ip: String,
    pub from_peer_port: u16,
    pub message: Option<String>,
    pub timestamp: String,
    /// `pending`, `accepted` or `rejected`.
    pub status: String,
}

/// Asks to connect to a mesh at an address.
#[derive(Debug, Clone)]
pub struct MeshConnectRequest {
    pub address: String,
}

/// Asks to send a message over a mesh.
#[derive(Debug, Clone)]
pub struct MeshMessageRequest {
    pub content: String,
}

/// Answers with the counters of the mesh.
#[derive(Debug, Clone, Copy)]
pub struct MeshStatsResponse {
    pub stats: MeshStats,
}

/// Asks to ping a peer.
#[derive(Debug, Clone)]
pub struct PingRequest {
    pub peer_id: String,
}

/// Answers with the latency of a peer.
#[derive(Debug, Clone)]
pub struct PingResponse {
    pub latency: u64,
    pub status: String,
}

/// Asks to send a message to all peers.
#[derive(Debug, Clone)]
pub struct BroadcastRequest {
    pub message: String,
}

/// Answers with the reach of a broadcast.
#[derive(Debug, Clone)]
pub struct BroadcastResponse {
    pub recipients: usize,
    pub message_id: String,
}

/// Answers with the counters of the Reticulum network.
#[derive(Debug, Clone, Copy)]
pub struct ReticulumStatsResponse {
    pub stats: ReticulumStats,
}

/// What `base64`'s standard engine makes of bytes: their text in the
/// standard alphabet, with padding.
pub uninterp spec fn base64_standard(bytes: Seq<u8>) -> Seq<char>;

/// `Engine::encode` of the base64 crate on its `STANDARD` engine. The text
/// depends on the bytes alone; Verus knows it by name only.
#[verifier::external_body]
fn encode_standard(bytes: &[u8]) -> (text: String)
    ensures
        text@ == base64_standard(bytes@),
{
    base64::Engine::encode(&base64::engine::general_purpose::STANDARD, bytes)
}

/// A public key as the interface reports it.
#[derive(Debug, Clone)]
pub struct KeyInfo {
    /// The key in base64.
    pub public_key: String,
    pub key_id: String,
}

impl KeyInfo {
    /// The report on the key with the bytes `public_key` and the
    /// identifier `key_id`.
    pub fn new(public_key: &Vec<u8>, key_id: String) -> (info: Self)
        ensures
            info.public_key@ == base64_standard(public_key@),
            info.key_id == key_id,
    {
        KeyInfo { public_key: encode_standard(public_key.as_slice()), key_id }
    }
}

/// The node as the interface reports it.
#[derive(Debug, Clone)]
pub struct IdentityInfo {
    pub id: String,
    pub username: String,
    /// The key in base64.
    pub public_key: String,
    pub key_id: String,
}

impl IdentityInfo {
    /// The report on the node `id` with the key `public_key`.
    pub fn new(id: String, public_key: &Vec<u8>, key_id: String) -> (info: Self)
        ensures
            info.id == id,
            info.username@ == "GhostWire User"@,
            info.public_key@ == base64_standard(public_key@),
            info.key_id == key_id,
    {
        IdentityInfo {
            id,
            username: "GhostWire User".to_owned(),
            public_key: encode_standard(public_key.as_slice()),
            key_id,
        }
    }
}

/// The delivery status of a message to `recipient`: sent to all for the
/// recipient `broadcast`, else delivered.
pub fn delivery_status(recipient: &str) -> (status: &'static str)
    ensures
        status@ == if recipient@ == "broadcast"@ {
            "broadcast_sent"@
        } else {
            "delivered"@
        },
{
    if crate::text::same_text(recipient, "broadcast") {
        "broadcast_sent"
    } else {
        "delivered"
    }
}

/// The latency that a ping at `now_millis` milliseconds reports: between
/// 20 and 219 milliseconds.
pub fn ping_latency(now_millis: u64) -> (latency: u64)
    ensures
        latency == now_millis % 200 + 20,
{
    now_millis % 200 + 20
}

} // verus!
