//! Looking for other nodes on the local network: where to look, and what
//! to report of what was found.

use vstd::prelude::*;
use vstd::string::StringExecFns;
use crate::text::{decimal_text, number_text, trim, trimmed};
use crate::web::DiscoveredPeer;

verus! {

/// Whether `index` is the position of the last dot of `text`.
pub open spec fn is_last_dot(text: Seq<char>, index: int) -> bool {
    &&& 0 <= index < text.len()
    &&& text[index] == '.'
    &&& forall|j: int| index < j < text.len() ==> text[j] != '.'
}

/// Whether `text` holds no dot.
pub open spec fn has_no_dot(text: Seq<char>) -> bool {
    forall|j: int| 0 <= j < text.len() ==> text[j] != '.'
}

/// The prefix of the network of the address `local_ip`: what stands before
/// its last dot, as `192.168.1` in `192.168.1.100`. An address without a
/// dot has none.
pub fn network_prefix(local_ip: &str) -> (prefix: Option<String>)
    ensures
        match prefix {
            Some(p) => exists|index: int|
                is_last_dot(local_ip@, index) && p@ == local_ip@.subrange(0, index),
            None => has_no_dot(local_ip@),
        },
{
    let length = local_ip.unicode_len();
    let mut i: usize = length;
    while i > 0
        invariant
            i <= length,
            length == local_ip@.len(),
            forall|j: int| i <= j < local_ip@.len() ==> local_ip@[j] != '.',
        decreases i,
    {
        if local_ip.get_char(i - 1) == '.' {
            let prefix = local_ip.substring_char(0, i - 1).to_owned();
            proof {
                assert(is_last_dot(local_ip@, i - 1));
            }
            return Some(prefix);
        }
        i -= 1;
    }
    None
}

/// The ports on which nodes are looked for.
pub fn scan_ports() -> (ports: [u16; 5])
    ensures
        ports@ == seq![3001u16, 3002u16, 3003u16, 3004u16, 3005u16],
{
    [3001, 3002, 3003, 3004, 3005]
}

/// The address of the host `host` in the network `prefix`.
pub fn target_address(prefix: &str, host: u8) -> (address: String)
    ensures
        address@ == prefix@ + "."@ + decimal_text(host as nat),
{
    let mut address = prefix.to_owned();
    address.append(".");
    address.append(number_text(host as usize).as_str());
    address
}

/// The address of `path` on the node at `ip` and `port`.
pub fn node_address(ip: &str, port: u16, path: &str) -> (url: String)
    ensures
        url@ == "http://"@ + ip@ + ":"@ + decimal_text(port as nat) + path@,
{
    let mut url = "http://".to_owned();
    url.append(ip);
    url.append(":");
    url.append(number_text(port as usize).as_str());
    url.append(path);
    url
}

/// Whether `peer` is the report on a node that answered at `target_ip`
/// and `port`: under the address that it gave for itself, or else the one
/// at which it answered; under the name that it gave, or else `Unknown`.
pub open spec fn is_discovered(
    peer: DiscoveredPeer,
    reported_ip: Option<Seq<char>>,
    target_ip: Seq<char>,
    port: u16,
    username: Option<Seq<char>>,
) -> bool {
    &&& peer.ip@ == match reported_ip {
        Some(ip) => ip,
        None => target_ip,
    }
    &&& peer.port == port
    &&& peer.username@ == match username {
        Some(name) => name,
        None => "Unknown"@,
    }
    &&& peer.node_id@ == "node_"@ + match reported_ip {
        Some(ip) => ip,
        None => "unknown"@,
    } + "_"@ + decimal_text(port as nat)
    &&& peer.public_key@ == "discovered_key"@
    &&& peer.last_seen@ == "now"@
    &&& peer.status@ == "online"@
}

/// The text of an optional string slice.
pub open spec fn slice_text(value: Option<&str>) -> Option<Seq<char>> {
    match value {
        Some(text) => Some(text@),
        None => None,
    }
}

/// The report on a node that answered at `target_ip` and `port`.
pub fn discovered_peer(
    reported_ip: Option<&str>,
    target_ip: &str,
    port: u16,
    username: Option<&str>,
) -> (peer: DiscoveredPeer)
    ensures
        is_discovered(peer, slice_text(reported_ip), target_ip@, port, slice_text(username)),
{
    let mut node_id = "node_".to_owned();
    node_id.append(
        match reported_ip {
            Some(ip) => ip,
            None => "unknown",
        },
    );
    node_id.append("_");
    node_id.append(number_text(port as usize).as_str());
    DiscoveredPeer {
        ip: match reported_ip {
            Some(ip) => ip.to_owned(),
            None => target_ip.to_owned(),
        },
        port,
        username: match username {
            Some(name) => name.to_owned(),
            None => "Unknown".to_owned(),
        },
        node_id,
        public_key: "discovered_key".to_owned(),
        last_seen: "now".to_owned(),
        status: "online".to_owned(),
    }
}

/// Whether `peer` is the example with the given texts and port.
pub open spec fn example_is(
    peer: DiscoveredPeer,
    ip: Seq<char>,
    port: u16,
    username: Seq<char>,
    node_id: Seq<char>,
    public_key: Seq<char>,
    last_seen: Seq<char>,
) -> bool {
    &&& peer.ip@ == ip
    &&& peer.port == port
    &&& peer.username@ == username
    &&& peer.node_id@ == node_id
    &&& peer.public_key@ == public_key
    &&& peer.last_seen@ == last_seen
    &&& peer.status@ == "online"@
}

/// Whether `peers` are the two examples that a scan reports when it finds
/// nothing.
pub open spec fn are_examples(peers: Seq<DiscoveredPeer>) -> bool {
    &&& peers.len() == 2
    &&& example_is(
        peers[0],
        "192.168.1.100"@,
        3002,
        "Alice"@,
        "node_alice_001"@,
        "mock_public_key_1"@,
        "2 min ago"@,
    )
    &&& example_is(
        peers[1],
        "192.168.1.101"@,
        3003,
        "Bob"@,
        "node_bob_002"@,
        "mock_public_key_2"@,
        "5 min ago"@,
    )
}

/// What a scan reports: the nodes that it found, or two examples where it
/// found none.
pub fn scan_report(found: Vec<DiscoveredPeer>) -> (report: Vec<DiscoveredPeer>)
    ensures
        found@.len() > 0 ==> report@ == found@,
        found@.len() == 0 ==> are_examples(report@),
{
    let mut report = found;
    if report.len() == 0 {
        report.push(
            DiscoveredPeer {
                ip: "192.168.1.100".to_owned(),
                port: 3002,
                username: "Alice".to_owned(),
                node_id: "node_alice_001".to_owned(),
                public_key: "mock_public_key_1".to_owned(),
                last_seen: "2 min ago".to_owned(),
                status: "online".to_owned(),
            },
        );
        report.push(
            DiscoveredPeer {
                ip: "192.168.1.101".to_owned(),
                port: 3003,
                username: "Bob".to_owned(),
                node_id: "node_bob_002".to_owned(),
                public_key: "mock_public_key_2".to_owned(),
                last_seen: "5 min ago".to_owned(),
                status: "online".to_owned(),
            },
        );
    }
    report
}

/// The name of the user: what is stored, without the whitespace around
/// it, or `GhostUser` where nothing is stored.
pub fn username_from(stored: Option<&str>) -> (name: String)
    ensures
        name@ == match stored {
            Some(text) => trimmed(text@),
            None => "GhostUser"@,
        },
{
    match stored {
        Some(text) => trim(text).to_owned(),
        None => "GhostUser".to_owned(),
    }
}

} // verus!
