//! The admission engine: it owns the policy, the blacklist, both quota
//! trackers, the event log and the statistics, and answers whether a
//! connection or a message is admitted. Every entry point takes the engine
//! exclusively, so the check of a count against its limit and the increment
//! are one step.

use vstd::prelude::*;
use crate::security::blacklist::BlacklistTable;
use crate::security::events::{EventLog, StatsAggregator, connection_event};
use crate::security::model::EngineModel;
use crate::security::policy::PolicyStore;
use crate::security::quota::{ConnectionQuotaTracker, MessageQuotaTracker};
use crate::security::types::{
    Decision, DenyReason, SecurityConfig, SecurityEvent, SecurityStats, StaticVerdict,
};

verus! {

/// Number of events that the log of an engine retains when none is asked for.
pub const DEFAULT_EVENT_CAPACITY: usize = 1024;

/// The admission engine.
pub struct SecurityManager {
    policy: PolicyStore,
    blacklist: BlacklistTable,
    connection_counts: ConnectionQuotaTracker,
    message_counts: MessageQuotaTracker,
    events: EventLog,
    stats: StatsAggregator,
}

impl View for SecurityManager {
    type V = EngineModel;

    closed spec fn view(&self) -> EngineModel {
        EngineModel {
            policy: self.policy@,
            blacklist: self.blacklist@,
            connections: self.connection_counts@,
            messages: self.message_counts@,
            log: self.events@,
            stats: self.stats@,
        }
    }
}

impl SecurityManager {
    /// The tables are well formed and carry the limits of the policy.
    pub closed spec fn wf(&self) -> bool {
        &&& self.blacklist.wf()
        &&& self.connection_counts.wf()
        &&& self.events.wf()
        &&& self@.wf()
    }

    /// A well-formed engine has a well-formed value.
    pub proof fn lemma_wf_model(&self)
        requires
            self.wf(),
        ensures
            self@.wf(),
    {
    }

    /// An engine with the policy of `config`, no state, and a log of
    /// [`DEFAULT_EVENT_CAPACITY`] events.
    pub fn new(config: SecurityConfig) -> (engine: Self)
        ensures
            engine.wf(),
            engine@ == EngineModel::initial(config@, DEFAULT_EVENT_CAPACITY as nat),
    {
        Self::with_event_capacity(config, DEFAULT_EVENT_CAPACITY)
    }

    /// An engine with the policy of `config`, no state, and a log that
    /// retains the newest `capacity` events.
    pub fn with_event_capacity(config: SecurityConfig, capacity: usize) -> (engine: Self)
        ensures
            engine.wf(),
            engine@ == EngineModel::initial(config@, capacity as nat),
    {
        let policy = PolicyStore::new(&config);
        let blacklist = BlacklistTable::new(policy.blacklist_ttl_secs());
        let connection_counts = ConnectionQuotaTracker::new(policy.max_connections_per_ip());
        let message_counts = MessageQuotaTracker::new(policy.max_messages_per_minute());
        SecurityManager {
            policy,
            blacklist,
            connection_counts,
            message_counts,
            events: EventLog::new(capacity),
            stats: StatsAggregator::new(),
        }
    }

    /// What the static lists alone say about `key`.
    pub fn evaluate_static(&self, key: &str) -> (verdict: StaticVerdict)
        ensures
            verdict == self@.policy.evaluate_static(key@),
    {
        self.policy.evaluate_static(key)
    }

    /// Whether `key` is on the dynamic blacklist at `now`.
    pub fn is_blocked(&self, key: &str, now: u64) -> (blocked: bool)
        ensures
            blocked == self@.blacklist.is_blocked(key@, now as nat),
    {
        self.blacklist.is_blocked(key, now)
    }

    /// Whether the static lists and the dynamic blacklist let `ip` through
    /// at `now`. Changes nothing and looks at no quota.
    pub fn is_ip_allowed(&self, ip: &str, now: u64) -> (allowed: bool)
        ensures
            allowed == self@.is_ip_allowed(ip@, now as nat),
    {
        match self.policy.static_denial(ip) {
            Some(_) => false,
            None => !self.blacklist.is_blocked(ip, now),
        }
    }

    /// Connection attempts counted for `ip` in the current window.
    pub fn connection_count(&self, ip: &str) -> (n: usize)
        ensures
            n as nat == self@.connections.count(ip@),
    {
        self.connection_counts.count(ip)
    }

    /// Messages counted for `peer` in the current window.
    pub fn message_count(&self, peer: &str) -> (n: usize)
        ensures
            n as nat == self@.messages.count(peer@),
    {
        self.message_counts.count(peer)
    }

    /// Number of events that the log retains now.
    pub fn event_count(&self) -> (n: usize)
        ensures
            n as nat == self@.log.events.len(),
    {
        self.events.len()
    }

    /// The retained event at `index`, the oldest being at 0.
    pub fn event(&self, index: usize) -> (event: Option<&SecurityEvent>)
        ensures
            event.is_some() == (index < self@.log.events.len()),
            event.is_some() ==> event.unwrap()@ == self@.log.events.index(index as int),
    {
        self.events.get(index)
    }

    /// Appends `event` to the log and takes it into the statistics: one more
    /// event in total, the running maximum of the threat level, and one more
    /// blocked connection if the event is a denial.
    pub fn add_event(&mut self, event: SecurityEvent)
        requires
            old(self).wf(),
            old(self)@.stats.total_events < u64::MAX,
            event@.is_denial() ==> old(self)@.stats.blocked_connections < u64::MAX,
        ensures
            final(self).wf(),
            final(self)@ == old(self)@.add_event(event@),
    {
        self.stats.record(&event);
        self.events.append(event);
    }

    /// Records the outcome of a connection attempt of `ip` at `now` as an
    /// event: a success of low threat, or a failure of medium threat, which
    /// counts as a blocked connection.
    pub fn record_connection_attempt(&mut self, ip: &str, success: bool, reason: String, now: u64)
        requires
            old(self).wf(),
            old(self)@.stats.has_room(),
        ensures
            final(self).wf(),
            final(self)@ == old(self)@.add_event(
                connection_event(ip@, success, reason@, now as nat),
            ),
    {
        let event = SecurityEvent::connection_attempt(ip, success, reason.as_str(), now);
        self.add_event(event);
    }

    /// Decides on a connection attempt of `ip` at `now` and records it. The
    /// static lists decide first, then the dynamic blacklist, then the
    /// quota; an attempt over the quota puts `ip` on the blacklist. Exactly
    /// one event is recorded.
    pub fn admit_connection(&mut self, ip: &str, now: u64) -> (decision: Decision)
        requires
            old(self).wf(),
            old(self)@.stats.has_room(),
        ensures
            final(self).wf(),
            decision == old(self)@.decide_connection(ip@, now as nat),
            final(self)@ == old(self)@.admit_connection(ip@, now as nat),
    {
        let decision = match self.policy.static_denial(ip) {
            Some(reason) => Decision::Deny(reason),
            None => {
                if self.blacklist.is_blocked(ip, now) {
                    Decision::Deny(DenyReason::Blacklisted)
                } else if self.connection_counts.try_acquire(ip) {
                    Decision::Permit
                } else {
                    self.blacklist.block(ip, now);
                    Decision::Deny(DenyReason::QuotaExceeded)
                }
            },
        };
        let event = SecurityEvent::connection_attempt(
            ip,
            decision.is_permit(),
            decision.describe(),
            now,
        );
        self.add_event(event);
        decision
    }

    /// [`Self::admit_connection`] as a yes or no.
    pub fn record_connection(&mut self, ip: &str, now: u64) -> (admitted: bool)
        requires
            old(self).wf(),
            old(self)@.stats.has_room(),
        ensures
            final(self).wf(),
            admitted == old(self)@.decide_connection(ip@, now as nat).permits(),
            final(self)@ == old(self)@.admit_connection(ip@, now as nat),
    {
        self.admit_connection(ip, now).is_permit()
    }

    /// Counts a message of `peer` and returns whether it is within the
    /// quota: `false` iff the count with this message exceeds the limit.
    /// The peer is not blacklisted for it, and no list is consulted.
    pub fn admit_message(&mut self, peer: &str) -> (admitted: bool)
        requires
            old(self).wf(),
            old(self)@.messages.count(peer@) < usize::MAX,
        ensures
            final(self).wf(),
            admitted == old(self)@.decide_message(peer@),
            final(self)@ == old(self)@.admit_message(peer@),
    {
        self.message_counts.record(peer)
    }

    /// [`Self::admit_message`] under its other name.
    pub fn record_message(&mut self, peer_id: &str) -> (admitted: bool)
        requires
            old(self).wf(),
            old(self)@.messages.count(peer_id@) < usize::MAX,
        ensures
            final(self).wf(),
            admitted == old(self)@.decide_message(peer_id@),
            final(self)@ == old(self)@.admit_message(peer_id@),
    {
        self.admit_message(peer_id)
    }

    /// Puts `ip` on the dynamic blacklist from `now` on and counts one
    /// blocked connection.
    pub fn block_ip(&mut self, ip: &str, now: u64)
        requires
            old(self).wf(),
            old(self)@.stats.blocked_connections < u64::MAX,
        ensures
            final(self).wf(),
            final(self)@ == old(self)@.block_ip(ip@, now as nat),
    {
        self.blacklist.block(ip, now);
        self.stats.note_block();
    }

    /// The statistics as they stand: all fields from the same moment.
    pub fn get_security_stats(&self) -> (stats: SecurityStats)
        ensures
            stats@ == self@.stats,
    {
        self.stats.snapshot()
    }

    /// Maintenance at `now`: removes the expired blacklist entries, starts
    /// both quota windows anew, and notes the time of the scan.
    pub fn cleanup(&mut self, now: u64)
        requires
            old(self).wf(),
        ensures
            final(self).wf(),
            final(self)@ == old(self)@.cleanup(now as nat),
    {
        self.blacklist.sweep(now);
        self.connection_counts.reset();
        self.message_counts.reset();
        self.stats.mark_scan(now);
    }
}

} // verus!
