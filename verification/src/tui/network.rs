//! What the network screen shows.

use vstd::prelude::*;
use crate::text::same_text;
use crate::tui::input::{request, requested, show_screen};
use crate::tui::{AppState, Key, KeyPress, RequestModel, TuiApp, TuiMessage};

verus! {

/// A peer as the network screen lists it.
#[derive(Debug)]
pub struct PeerInfo {
    pub id: String,
    pub name: String,
    pub is_online: bool,
    pub last_seen: u64,
    pub message_count: usize,
}

impl PeerInfo {
    /// A copy of the peer.
    pub fn duplicate(&self) -> (copy: PeerInfo)
        ensures
            copy == *self,
    {
        PeerInfo {
            id: self.id.clone(),
            name: self.name.clone(),
            is_online: self.is_online,
            last_seen: self.last_seen,
            message_count: self.message_count,
        }
    }
}

/// The state of the network screen.
pub struct NetworkState {
    pub peer_count: usize,
    pub message_count: usize,
    pub is_connected: bool,
    pub uptime_seconds: u64,
    pub selected_peer: Option<String>,
    pub peers: Vec<PeerInfo>,
}

impl NetworkState {
    /// Whether `state` is the state before anything is known of the
    /// network: not connected, no peers, all counts zero.
    pub open spec fn is_initial(state: NetworkState) -> bool {
        &&& state.peer_count == 0
        &&& state.message_count == 0
        &&& !state.is_connected
        &&& state.uptime_seconds == 0
        &&& state.selected_peer.is_none()
        &&& state.peers@.len() == 0
    }

    /// The state before anything is known of the network.
    pub fn new() -> (state: Self)
        ensures
            Self::is_initial(state),
    {
        NetworkState {
            peer_count: 0,
            message_count: 0,
            is_connected: false,
            uptime_seconds: 0,
            selected_peer: None,
            peers: Vec::new(),
        }
    }

    /// Sets the count of peers.
    pub fn update_peer_count(&mut self, count: usize)
        ensures
            *final(self) == (NetworkState { peer_count: count, ..*old(self) }),
    {
        self.peer_count = count;
    }

    /// Sets the count of messages.
    pub fn update_message_count(&mut self, count: usize)
        ensures
            *final(self) == (NetworkState { message_count: count, ..*old(self) }),
    {
        self.message_count = count;
    }

    /// Sets whether the network is connected.
    pub fn set_connection_status(&mut self, connected: bool)
        ensures
            *final(self) == (NetworkState { is_connected: connected, ..*old(self) }),
    {
        self.is_connected = connected;
    }

    /// Appends `peer` to the list, whether a peer of its identifier is
    /// listed or not.
    pub fn add_peer(&mut self, peer: PeerInfo)
        ensures
            *final(self) == (NetworkState { peers: final(self).peers, ..*old(self) }),
            final(self).peers@ == old(self).peers@.push(peer),
    {
        self.peers.push(peer);
    }

    /// Removes every peer with identifier `peer_id` from the list; the
    /// others stay in their order.
    pub fn remove_peer(&mut self, peer_id: &str)
        ensures
            *final(self) == (NetworkState { peers: final(self).peers, ..*old(self) }),
            final(self).peers@ == old(self).peers@.filter(|peer: PeerInfo| peer.id@ != peer_id@),
    {
        let ghost keep = |peer: PeerInfo| peer.id@ != peer_id@;
        let mut kept: Vec<PeerInfo> = Vec::new();
        let mut i: usize = 0;
        proof {
            assert(self.peers@.take(0) =~= Seq::<PeerInfo>::empty());
        }
        while i < self.peers.len()
            invariant
                i <= self.peers@.len(),
                *self == *old(self),
                keep == |peer: PeerInfo| peer.id@ != peer_id@,
                kept@ == self.peers@.take(i as int).filter(keep),
            decreases self.peers@.len() - i,
        {
            proof {
                let longer = self.peers@.take(i + 1);
                assert(longer.drop_last() =~= self.peers@.take(i as int));
                assert(longer.last() == self.peers@[i as int]);
                reveal(Seq::filter);
            }
            if !same_text(self.peers[i].id.as_str(), peer_id) {
                kept.push(self.peers[i].duplicate());
            }
            i += 1;
        }
        proof {
            assert(self.peers@.take(self.peers@.len() as int) =~= self.peers@);
        }
        self.peers = kept;
    }
}

/// What a key does on the network screen: `s` asks for a scan, `c` to
/// connect or, when connected, to disconnect, `r` to count the peers anew,
/// and `l` shows the logs; capitals do the same.
pub open spec fn network_input_done(before: TuiApp, after: TuiApp, key: KeyPress) -> bool {
    match key.code {
        Key::Char(c) => if c == 's' || c == 'S' {
            requested(before, after, RequestModel::ScanNetwork)
        } else if c == 'c' || c == 'C' {
            requested(
                before,
                after,
                if before.network_state.is_connected {
                    RequestModel::DisconnectNetwork
                } else {
                    RequestModel::ConnectNetwork
                },
            )
        } else if c == 'r' || c == 'R' {
            requested(before, after, RequestModel::RefreshPeers)
        } else if c == 'l' || c == 'L' {
            after == (TuiApp { app_state: AppState::Logs, ..before })
        } else {
            after == before
        },
        _ => after == before,
    }
}

/// Takes a key on the network screen.
pub fn handle_input(app: &mut TuiApp, key: KeyPress)
    ensures
        network_input_done(*old(app), *final(app), key),
{
    match key.code {
        Key::Char(c) => {
            if c == 's' || c == 'S' {
                request(app, TuiMessage::ScanNetwork);
            } else if c == 'c' || c == 'C' {
                if app.network_state.is_connected {
                    request(app, TuiMessage::DisconnectNetwork);
                } else {
                    request(app, TuiMessage::ConnectNetwork);
                }
            } else if c == 'r' || c == 'R' {
                request(app, TuiMessage::RefreshPeers);
            } else if c == 'l' || c == 'L' {
                show_screen(app, AppState::Logs);
            }
        },
        _ => {},
    }
}

} // verus!
