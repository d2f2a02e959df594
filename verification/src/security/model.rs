//! The admission engine as a state machine over mathematical values: what
//! each entry point returns and how it changes the state.

use vstd::prelude::*;
use crate::security::blacklist::BlacklistModel;
use crate::security::events::{EventLogModel, connection_event};
use crate::security::quota::QuotaModel;
use crate::security::types::{Decision, DenyReason, EventModel, PolicyModel, StatsModel};

verus! {

/// Mathematical value of a [`crate::security::manager::SecurityManager`].
pub struct EngineModel {
    pub policy: PolicyModel,
    pub blacklist: BlacklistModel,
    pub connections: QuotaModel,
    pub messages: QuotaModel,
    pub log: EventLogModel,
    pub stats: StatsModel,
}

impl EngineModel {
    /// The engine as it is made from `policy`, with a log of `capacity` events.
    pub open spec fn initial(policy: PolicyModel, capacity: nat) -> EngineModel {
        EngineModel {
            policy,
            blacklist: BlacklistModel::empty(policy.blacklist_ttl_secs),
            connections: QuotaModel::empty(policy.max_connections_per_ip),
            messages: QuotaModel::empty(policy.max_messages_per_minute),
            log: EventLogModel::empty(capacity),
            stats: StatsModel::initial(),
        }
    }

    /// The tables carry the limits of the policy, no address is counted
    /// beyond its quota, and the log is within its capacity.
    pub open spec fn wf(self) -> bool {
        &&& self.blacklist.ttl == self.policy.blacklist_ttl_secs
        &&& self.connections.limit == self.policy.max_connections_per_ip
        &&& self.messages.limit == self.policy.max_messages_per_minute
        &&& self.connections.within_limit()
        &&& self.log.wf()
    }

    /// Whether the static lists and the dynamic blacklist let `ip` through
    /// at `now`. No quota is looked at.
    pub open spec fn is_ip_allowed(self, ip: Seq<char>, now: nat) -> bool {
        self.policy.static_denial(ip).is_none() && !self.blacklist.is_blocked(ip, now)
    }

    /// The decision on a connection attempt of `ip` at `now`. The first
    /// check that objects decides: the static lists, then the dynamic
    /// blacklist, then the quota.
    pub open spec fn decide_connection(self, ip: Seq<char>, now: nat) -> Decision {
        match self.policy.static_denial(ip) {
            Some(reason) => Decision::Deny(reason),
            None => if self.blacklist.is_blocked(ip, now) {
                Decision::Deny(DenyReason::Blacklisted)
            } else if self.connections.exhausted(ip) {
                Decision::Deny(DenyReason::QuotaExceeded)
            } else {
                Decision::Permit
            },
        }
    }

    /// The engine with one more event in the log and in the statistics.
    pub open spec fn add_event(self, event: EventModel) -> EngineModel {
        EngineModel { log: self.log.append(event), stats: self.stats.record(event), ..self }
    }

    /// The event that an admission of `ip` at `now` with outcome `decision` records.
    pub open spec fn admission_event(ip: Seq<char>, decision: Decision, now: nat) -> EventModel {
        connection_event(ip, decision.permits(), decision.description(), now)
    }

    /// The engine after a connection attempt of `ip` at `now`. A permitted
    /// attempt is counted; one over the quota puts `ip` on the blacklist;
    /// every attempt records exactly one event.
    pub open spec fn admit_connection(self, ip: Seq<char>, now: nat) -> EngineModel {
        let decision = self.decide_connection(ip, now);
        let moved = match decision {
            Decision::Permit => EngineModel { connections: self.connections.increment(ip), ..self },
            Decision::Deny(DenyReason::QuotaExceeded) => EngineModel {
                blacklist: self.blacklist.block(ip, now),
                ..self
            },
            Decision::Deny(_) => self,
        };
        moved.add_event(Self::admission_event(ip, decision, now))
    }

    /// Whether a message of `peer` is within its quota: the count with this
    /// message does not exceed the limit.
    pub open spec fn decide_message(self, peer: Seq<char>) -> bool {
        !self.messages.exhausted(peer)
    }

    /// The engine after a message of `peer`: the message is counted in any
    /// case; nothing else changes.
    pub open spec fn admit_message(self, peer: Seq<char>) -> EngineModel {
        EngineModel { messages: self.messages.increment(peer), ..self }
    }

    /// The engine after a manual block of `key` at `now`.
    pub open spec fn block_ip(self, key: Seq<char>, now: nat) -> EngineModel {
        EngineModel {
            blacklist: self.blacklist.block(key, now),
            stats: self.stats.note_block(),
            ..self
        }
    }

    /// The engine after maintenance at `now`: expired blacklist entries are
    /// gone, both quota windows start anew, and the scan time is `now`.
    pub open spec fn cleanup(self, now: nat) -> EngineModel {
        EngineModel {
            blacklist: self.blacklist.sweep(now),
            connections: self.connections.reset(),
            messages: self.messages.reset(),
            stats: self.stats.mark_scan(now),
            ..self
        }
    }
}

} // verus!
