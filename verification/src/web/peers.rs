//! The book of connection requests and of connected peers.

use vstd::prelude::*;
use vstd::string::StringExecFns;
use crate::keyed::{KeyedMap, names, without_key};
use crate::text::{decimal_text, number_text, same_text, text_of};
use crate::web::{ConnectionRequest, PeerInfo};

verus! {

/// The address to which the answer to a request of the node at `ip` and
/// `port` goes.
pub open spec fn response_url(ip: Seq<char>, port: u16) -> Seq<char> {
    "http://"@ + ip + ":"@ + decimal_text(port as nat) + "/api/connection_response"@
}

/// The address at which the node at `ip` and `port` takes requests to
/// connect.
pub open spec fn request_url(ip: Seq<char>, port: u16) -> Seq<char> {
    "http://"@ + ip + ":"@ + decimal_text(port as nat) + "/api/connection_request"@
}

/// The address at which the node at `ip` and `port` learns that a peer has
/// disconnected.
pub open spec fn disconnect_url(ip: Seq<char>, port: u16) -> Seq<char> {
    "http://"@ + ip + ":"@ + decimal_text(port as nat) + "/api/peer_disconnected"@
}

/// An address of the node at `ip` and `port`.
fn node_url(ip: &str, port: u16, path: &str) -> (url: String)
    ensures
        url@ == "http://"@ + ip@ + ":"@ + decimal_text(port as nat) + path@,
{
    let mut url = "http://".to_owned();
    url.append(ip);
    url.append(":");
    url.append(number_text(port as usize).as_str());
    url.append(path);
    url
}

/// The address at which the node at `ip` and `port` takes requests to
/// connect.
pub fn connection_request_url(ip: &str, port: u16) -> (url: String)
    ensures
        url@ == request_url(ip@, port),
{
    node_url(ip, port, "/api/connection_request")
}

/// The address at which the node at `ip` and `port` learns that a peer has
/// disconnected.
pub fn peer_disconnected_url(ip: &str, port: u16) -> (url: String)
    ensures
        url@ == disconnect_url(ip@, port),
{
    node_url(ip, port, "/api/peer_disconnected")
}

/// Whether `request` is the request with identifier `id` that this node
/// sends from the address `ip` at the time `timestamp`: pending, from the
/// local node at port 3001.
pub open spec fn is_outgoing(
    request: ConnectionRequest,
    id: Seq<char>,
    ip: Seq<char>,
    message: Option<String>,
    timestamp: Seq<char>,
) -> bool {
    &&& request.id@ == id
    &&& request.from_peer_id@ == "local_node"@
    &&& request.from_peer_name@ == "Local Node"@
    &&& request.from_peer_ip@ == ip
    &&& request.from_peer_port == 3001
    &&& request.message == message
    &&& request.timestamp@ == timestamp
    &&& request.status@ == "pending"@
}

/// Whether `after` is the request `before` with the status `status`.
pub open spec fn with_status(before: ConnectionRequest, after: ConnectionRequest, status: Seq<char>) -> bool {
    &&& after.id == before.id
    &&& after.from_peer_id == before.from_peer_id
    &&& after.from_peer_name == before.from_peer_name
    &&& after.from_peer_ip == before.from_peer_ip
    &&& after.from_peer_port == before.from_peer_port
    &&& after.message == before.message
    &&& after.timestamp == before.timestamp
    &&& after.status@ == status
}

/// Whether `peer` is the peer with the given texts and no public key.
pub open spec fn peer_is(
    peer: PeerInfo,
    id: Seq<char>,
    name: Seq<char>,
    status: Seq<char>,
    last_seen: Seq<char>,
    public_key: Option<Seq<char>>,
) -> bool {
    &&& peer.id@ == id
    &&& peer.name@ == name
    &&& peer.status@ == status
    &&& peer.last_seen@ == last_seen
    &&& text_of(peer.public_key) == public_key
}

/// The answer to a request that was looked up in the book.
#[derive(Debug, Clone)]
pub enum AcceptOutcome {
    /// The request was accepted: the peer that is now connected, and the
    /// address to tell so.
    Accepted(PeerInfo, String),
    /// The request was rejected: the address to tell so.
    Rejected(String),
    /// The book holds no request of that identifier.
    NotFound,
}

impl ConnectionRequest {
    /// A copy of the request.
    pub fn duplicate(&self) -> (copy: ConnectionRequest)
        ensures
            copy == *self,
    {
        ConnectionRequest {
            id: self.id.clone(),
            from_peer_id: self.from_peer_id.clone(),
            from_peer_name: self.from_peer_name.clone(),
            from_peer_ip: self.from_peer_ip.clone(),
            from_peer_port: self.from_peer_port,
            message: match &self.message {
                Some(m) => Some(m.clone()),
                None => None,
            },
            timestamp: self.timestamp.clone(),
            status: self.status.clone(),
        }
    }

    /// Whether the request waits for its answer.
    pub fn is_pending(&self) -> (pending: bool)
        ensures
            pending == (self.status@ == "pending"@),
    {
        same_text(self.status.as_str(), "pending")
    }
}

impl PeerInfo {
    /// A copy of the peer.
    pub fn duplicate(&self) -> (copy: PeerInfo)
        ensures
            copy == *self,
    {
        PeerInfo {
            id: self.id.clone(),
            name: self.name.clone(),
            status: self.status.clone(),
            last_seen: self.last_seen.clone(),
            public_key: match &self.public_key {
                Some(k) => Some(k.clone()),
                None => None,
            },
        }
    }
}

/// The requests to connect, by identifier, and the connected peers, by
/// peer identifier.
pub struct PeerBook {
    requests: KeyedMap<ConnectionRequest>,
    connections: KeyedMap<PeerInfo>,
}

impl PeerBook {
    /// The requests by identifier.
    pub closed spec fn requests(&self) -> Map<Seq<char>, ConnectionRequest> {
        self.requests@
    }

    /// The identifiers of the requests in the order of their arrival.
    pub closed spec fn request_order(&self) -> Seq<Seq<char>> {
        self.requests.key_list()
    }

    /// The connected peers by peer identifier.
    pub closed spec fn connections(&self) -> Map<Seq<char>, PeerInfo> {
        self.connections@
    }

    /// The identifiers of the connected peers in the order in which they
    /// connected.
    pub closed spec fn connection_order(&self) -> Seq<Seq<char>> {
        self.connections.key_list()
    }

    /// Each list of identifiers names exactly the keys of its map, each once.
    pub closed spec fn wf(&self) -> bool {
        self.requests.wf() && self.connections.wf()
    }

    /// In a well-formed book an identifier is listed iff the book holds it,
    /// and none is listed twice.
    pub proof fn lemma_orders(&self)
        requires
            self.wf(),
        ensures
            self.request_order().no_duplicates(),
            self.connection_order().no_duplicates(),
            forall|id: Seq<char>| #[trigger]
                self.requests().contains_key(id) <==> self.request_order().contains(id),
            forall|id: Seq<char>| #[trigger]
                self.connections().contains_key(id) <==> self.connection_order().contains(id),
    {
    }

    /// An empty book.
    pub fn new() -> (book: Self)
        ensures
            book.wf(),
            book.requests() == Map::<Seq<char>, ConnectionRequest>::empty(),
            book.connections() == Map::<Seq<char>, PeerInfo>::empty(),
            book.request_order() == Seq::<Seq<char>>::empty(),
            book.connection_order() == Seq::<Seq<char>>::empty(),
    {
        PeerBook { requests: KeyedMap::new(), connections: KeyedMap::new() }
    }

    /// Enters the request with identifier `connection_id` that this node
    /// sends at the time `timestamp` from its address `local_ip`, or from
    /// `127.0.0.1` where it knows none.
    pub fn open_request(
        &mut self,
        connection_id: &str,
        local_ip: Option<&str>,
        message: Option<String>,
        timestamp: &str,
    )
        requires
            old(self).wf(),
        ensures
            final(self).wf(),
            final(self).connections() == old(self).connections(),
            final(self).connection_order() == old(self).connection_order(),
            final(self).requests().dom() == old(self).requests().dom().insert(connection_id@),
            forall|id: Seq<char>|
                id != connection_id@ && old(self).requests().contains_key(id)
                    ==> #[trigger] final(self).requests()[id] == old(self).requests()[id],
            is_outgoing(
                final(self).requests()[connection_id@],
                connection_id@,
                match local_ip {
                    Some(ip) => ip@,
                    None => "127.0.0.1"@,
                },
                message,
                timestamp@,
            ),
            final(self).request_order() == if old(self).requests().contains_key(connection_id@) {
                old(self).request_order()
            } else {
                old(self).request_order().push(connection_id@)
            },
    {
        let request = ConnectionRequest {
            id: connection_id.to_owned(),
            from_peer_id: "local_node".to_owned(),
            from_peer_name: "Local Node".to_owned(),
            from_peer_ip: match local_ip {
                Some(ip) => ip.to_owned(),
                None => "127.0.0.1".to_owned(),
            },
            from_peer_port: 3001,
            message,
            timestamp: timestamp.to_owned(),
            status: "pending".to_owned(),
        };
        self.requests.insert(connection_id, request);
        proof {
            assert(self.requests@.dom() =~= old(self).requests@.dom().insert(connection_id@));
        }
    }

    /// Enters the request `request` that another node sent, in place of a
    /// request of the same identifier.
    pub fn store_request(&mut self, request: ConnectionRequest)
        requires
            old(self).wf(),
        ensures
            final(self).wf(),
            final(self).connections() == old(self).connections(),
            final(self).connection_order() == old(self).connection_order(),
            final(self).requests() == old(self).requests().insert(request.id@, request),
            final(self).request_order() == if old(self).requests().contains_key(request.id@) {
                old(self).request_order()
            } else {
                old(self).request_order().push(request.id@)
            },
    {
        let id = request.id.clone();
        self.requests.insert(id.as_str(), request);
    }

    /// Answers the request with identifier `connection_id` at the time
    /// `now`. An accepted request has the status `accepted`, and its
    /// sender is a connected peer from then on; a rejected one has the
    /// status `rejected`. Either way the answer names the address to tell
    /// the sender. Without such a request nothing changes.
    pub fn accept_connection(&mut self, connection_id: &str, accept: bool, now: &str) -> (outcome:
        AcceptOutcome)
        requires
            old(self).wf(),
        ensures
            final(self).wf(),
            final(self).request_order() == old(self).request_order(),
            !old(self).requests().contains_key(connection_id@) ==> {
                &&& outcome == AcceptOutcome::NotFound
                &&& final(self).requests() == old(self).requests()
                &&& final(self).connections() == old(self).connections()
                &&& final(self).connection_order() == old(self).connection_order()
            },
            old(self).requests().contains_key(connection_id@) ==> {
                let before = old(self).requests()[connection_id@];
                &&& final(self).requests().dom() == old(self).requests().dom()
                &&& forall|id: Seq<char>|
                    id != connection_id@ && old(self).requests().contains_key(id)
                        ==> #[trigger] final(self).requests()[id] == old(self).requests()[id]
                &&& with_status(
                    before,
                    final(self).requests()[connection_id@],
                    if accept {
                        "accepted"@
                    } else {
                        "rejected"@
                    },
                )
                &&& match outcome {
                    AcceptOutcome::Accepted(peer, url) => {
                        &&& accept
                        &&& peer_is(
                            peer,
                            before.from_peer_id@,
                            before.from_peer_name@,
                            "connected"@,
                            now@,
                            None,
                        )
                        &&& url@ == response_url(before.from_peer_ip@, before.from_peer_port)
                        &&& final(self).connections() == old(self).connections().insert(
                            before.from_peer_id@,
                            peer,
                        )
                        &&& final(self).connection_order() == if old(
                            self,
                        ).connections().contains_key(before.from_peer_id@) {
                            old(self).connection_order()
                        } else {
                            old(self).connection_order().push(before.from_peer_id@)
                        }
                    },
                    AcceptOutcome::Rejected(url) => {
                        &&& !accept
                        &&& url@ == response_url(before.from_peer_ip@, before.from_peer_port)
                        &&& final(self).connections() == old(self).connections()
                        &&& final(self).connection_order() == old(self).connection_order()
                    },
                    AcceptOutcome::NotFound => false,
                }
            },
    {
        let found = match self.requests.get(connection_id) {
            Some(request) => Some(request.duplicate()),
            None => None,
        };
        match found {
            None => AcceptOutcome::NotFound,
            Some(request) => {
                let url = node_url(
                    request.from_peer_ip.as_str(),
                    request.from_peer_port,
                    "/api/connection_response",
                );
                let answered = ConnectionRequest {
                    id: request.id.clone(),
                    from_peer_id: request.from_peer_id.clone(),
                    from_peer_name: request.from_peer_name.clone(),
                    from_peer_ip: request.from_peer_ip.clone(),
                    from_peer_port: request.from_peer_port,
                    message: match &request.message {
                        Some(m) => Some(m.clone()),
                        None => None,
                    },
                    timestamp: request.timestamp.clone(),
                    status: if accept {
                        "accepted".to_owned()
                    } else {
                        "rejected".to_owned()
                    },
                };
                self.requests.insert(connection_id, answered);
                proof {
                    assert(self.requests@.dom() =~= old(self).requests@.dom());
                }
                if accept {
                    let peer = PeerInfo {
                        id: request.from_peer_id.clone(),
                        name: request.from_peer_name.clone(),
                        status: "connected".to_owned(),
                        last_seen: now.to_owned(),
                        public_key: None,
                    };
                    self.connections.insert(request.from_peer_id.as_str(), peer.duplicate());
                    AcceptOutcome::Accepted(peer, url)
                } else {
                    AcceptOutcome::Rejected(url)
                }
            },
        }
    }

    /// The requests that wait for their answer, in the order of their
    /// arrival.
    pub fn get_connection_requests(&self) -> (pending: Vec<ConnectionRequest>)
        requires
            self.wf(),
        ensures
            pending@ == self.request_order().map_values(
                |id: Seq<char>| self.requests()[id],
            ).filter(|request: ConnectionRequest| request.status@ == "pending"@),
    {
        let ghost all = self.request_order().map_values(|id: Seq<char>| self.requests()[id]);
        let ghost keep = |request: ConnectionRequest| request.status@ == "pending"@;
        let mut pending: Vec<ConnectionRequest> = Vec::new();
        let mut i: usize = 0;
        proof {
            assert(all.take(0) =~= Seq::<ConnectionRequest>::empty());
        }
        while i < self.requests.len()
            invariant
                i <= self.requests.key_list().len(),
                self.wf(),
                all == self.request_order().map_values(|id: Seq<char>| self.requests()[id]),
                keep == |request: ConnectionRequest| request.status@ == "pending"@,
                pending@ == all.take(i as int).filter(keep),
            decreases self.requests.key_list().len() - i,
        {
            proof {
                let longer = all.take(i + 1);
                assert(longer.drop_last() =~= all.take(i as int));
                assert(longer.last() == all[i as int]);
                reveal(Seq::filter);
                assert(self.requests.key_list().contains(self.requests.key_list()[i as int]));
            }
            let key = self.requests.key_at(i);
            match self.requests.get(key) {
                Some(request) => {
                    if request.is_pending() {
                        pending.push(request.duplicate());
                    }
                },
                None => {},
            }
            i += 1;
        }
        proof {
            assert(all.take(all.len() as int) =~= all);
        }
        pending
    }

    /// Whether the peer `peer_id` is connected.
    pub fn is_connected(&self, peer_id: &str) -> (connected: bool)
        ensures
            connected == self.connections().contains_key(peer_id@),
    {
        self.connections.contains_key(peer_id)
    }

    /// Number of connected peers.
    pub fn peer_count(&self) -> (count: usize)
        ensures
            count == self.connection_order().len(),
    {
        self.connections.len()
    }

    /// Takes the peer `peer_id` out of the connected peers. Returns
    /// whether it was connected.
    pub fn disconnect_peer(&mut self, peer_id: &str) -> (was_connected: bool)
        requires
            old(self).wf(),
        ensures
            final(self).wf(),
            was_connected == old(self).connections().contains_key(peer_id@),
            final(self).connections() == old(self).connections().remove(peer_id@),
            final(self).connection_order() == without_key(old(self).connection_order(), peer_id@),
            final(self).requests() == old(self).requests(),
            final(self).request_order() == old(self).request_order(),
    {
        self.connections.remove(peer_id)
    }

    /// The connected peers in the order in which they connected.
    pub fn connected_peers(&self) -> (peers: Vec<PeerInfo>)
        requires
            self.wf(),
        ensures
            peers@ == self.connection_order().map_values(|id: Seq<char>| self.connections()[id]),
    {
        let ghost all = self.connection_order().map_values(|id: Seq<char>| self.connections()[id]);
        let mut peers: Vec<PeerInfo> = Vec::new();
        let mut i: usize = 0;
        while i < self.connections.len()
            invariant
                i <= self.connections.key_list().len(),
                self.wf(),
                all == self.connection_order().map_values(|id: Seq<char>| self.connections()[id]),
                peers@ == all.take(i as int),
            decreases self.connections.key_list().len() - i,
        {
            proof {
                assert(self.connections.key_list().contains(self.connections.key_list()[i as int]));
            }
            let key = self.connections.key_at(i);
            match self.connections.get(key) {
                Some(peer) => {
                    peers.push(peer.duplicate());
                },
                None => {},
            }
            proof {
                assert(peers@ =~= all.take(i + 1));
            }
            i += 1;
        }
        proof {
            assert(all.take(all.len() as int) =~= all);
        }
        peers
    }

    /// What a broadcast reports as delivered: one entry for each connected
    /// peer, or the one entry that discovery was attempted where none is.
    pub fn delivery_report(&self) -> (report: Vec<String>)
        ensures
            names(report@) == if self.connection_order().len() == 0 {
                seq!["network_discovery:attempted"@]
            } else {
                self.connection_order().map_values(|id: Seq<char>| id + ":delivered"@)
            },
    {
        let ghost all = self.connection_order().map_values(|id: Seq<char>| id + ":delivered"@);
        let mut report: Vec<String> = Vec::new();
        let mut i: usize = 0;
        proof {
            assert(names(report@) =~= all.take(0));
        }
        while i < self.connections.len()
            invariant
                i <= self.connections.key_list().len(),
                all == self.connection_order().map_values(|id: Seq<char>| id + ":delivered"@),
                names(report@) == all.take(i as int),
            decreases self.connections.key_list().len() - i,
        {
            let mut entry = self.connections.key_at(i).to_owned();
            entry.append(":delivered");
            let ghost before = names(report@);
            report.push(entry);
            proof {
                assert(names(report@) =~= before.push(entry@));
                assert(all.take(i + 1) =~= all.take(i as int).push(all[i as int]));
            }
            i += 1;
        }
        proof {
            assert(all.take(all.len() as int) =~= all);
        }
        if report.len() == 0 {
            report.push("network_discovery:attempted".to_owned());
            proof {
                assert(names(report@) =~= seq!["network_discovery:attempted"@]);
            }
        }
        report
    }
}

/// The three peers that the interface shows while none is connected.
pub open spec fn demo_peers(peers: Seq<PeerInfo>, now: Seq<char>) -> bool {
    &&& peers.len() == 3
    &&& peer_is(
        peers[0],
        "peer_001"@,
        "Alice's Node"@,
        "discovered"@,
        now,
        Some("alice_public_key_123"@),
    )
    &&& peer_is(
        peers[1],
        "peer_002"@,
        "Bob's Node"@,
        "discovered"@,
        now,
        Some("bob_public_key_456"@),
    )
    &&& peer_is(
        peers[2],
        "peer_003"@,
        "Charlie's Node"@,
        "connected"@,
        now,
        Some("charlie_public_key_789"@),
    )
}

/// The peers to report at the time `now`: the connected ones, or three
/// examples where there are none.
pub fn get_peers(connected: Vec<PeerInfo>, now: &str) -> (peers: Vec<PeerInfo>)
    ensures
        connected@.len() > 0 ==> peers@ == connected@,
        connected@.len() == 0 ==> demo_peers(peers@, now@),
{
    let mut peers = connected;
    if peers.len() == 0 {
        peers.push(
            PeerInfo {
                id: "peer_001".to_owned(),
                name: "Alice's Node".to_owned(),
                status: "discovered".to_owned(),
                last_seen: now.to_owned(),
                public_key: Some("alice_public_key_123".to_owned()),
            },
        );
        peers.push(
            PeerInfo {
                id: "peer_002".to_owned(),
                name: "Bob's Node".to_owned(),
                status: "discovered".to_owned(),
                last_seen: now.to_owned(),
                public_key: Some("bob_public_key_456".to_owned()),
            },
        );
        peers.push(
            PeerInfo {
                id: "peer_003".to_owned(),
                name: "Charlie's Node".to_owned(),
                status: "connected".to_owned(),
                last_seen: now.to_owned(),
                public_key: Some("charlie_public_key_789".to_owned()),
            },
        );
    }
    peers
}

} // verus!
