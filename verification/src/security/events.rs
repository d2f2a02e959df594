//! The bounded event log and the statistics drawn from the events.

use std::collections::VecDeque;
use vstd::prelude::*;
use crate::security::types::{
    EntityType, EventModel, SecurityEvent, SecurityStats, StatsModel, ThreatLevel,
    connection_failed_tag, connection_success_tag,
};
use crate::text::same_text;

verus! {

/// The values of a run of events.
pub open spec fn event_models(events: Seq<SecurityEvent>) -> Seq<EventModel> {
    events.map_values(|event: SecurityEvent| event@)
}

/// Mathematical value of an [`EventLog`].
pub struct EventLogModel {
    /// The retained events, oldest first.
    pub events: Seq<EventModel>,
    /// How many events the log retains at most.
    pub capacity: nat,
}

impl EventLogModel {
    /// A log without events.
    pub open spec fn empty(capacity: nat) -> EventLogModel {
        EventLogModel { events: Seq::empty(), capacity }
    }

    /// The log holds no more than its capacity.
    pub open spec fn wf(self) -> bool {
        self.events.len() <= self.capacity
    }

    /// The log after one more event: the last `capacity` of the retained
    /// events followed by the new one.
    pub open spec fn append(self, event: EventModel) -> EventLogModel {
        let all = self.events.push(event);
        EventLogModel {
            events: if all.len() > self.capacity {
                all.skip(all.len() - self.capacity)
            } else {
                all
            },
            ..self
        }
    }
}

/// The event that records the outcome of a connection attempt of `ip` at
/// `now`: a success of low threat, or a failure of medium threat.
pub open spec fn connection_event(
    ip: Seq<char>,
    success: bool,
    reason: Seq<char>,
    now: nat,
) -> EventModel {
    EventModel {
        event_type: if success {
            connection_success_tag()
        } else {
            connection_failed_tag()
        },
        entity_type: EntityType::IP,
        entity_id: ip,
        threat_level: if success {
            ThreatLevel::Low
        } else {
            ThreatLevel::Medium
        },
        timestamp: now,
        description: reason,
    }
}

impl SecurityEvent {
    /// Whether the event records a denied connection.
    pub fn is_denial(&self) -> (denial: bool)
        ensures
            denial == self@.is_denial(),
    {
        same_text(self.event_type.as_str(), "connection_failed")
    }

    /// The event that records the outcome of a connection attempt.
    pub fn connection_attempt(ip: &str, success: bool, reason: &str, now: u64) -> (event: Self)
        ensures
            event@ == connection_event(ip@, success, reason@, now as nat),
    {
        SecurityEvent {
            event_type: if success {
                "connection_success".to_owned()
            } else {
                "connection_failed".to_owned()
            },
            entity_type: EntityType::IP,
            entity_id: ip.to_owned(),
            threat_level: if success {
                ThreatLevel::Low
            } else {
                ThreatLevel::Medium
            },
            timestamp: now,
            description: reason.to_owned(),
        }
    }
}

/// Append-only record of security events that retains the newest ones.
pub struct EventLog {
    events: VecDeque<SecurityEvent>,
    capacity: usize,
}

impl View for EventLog {
    type V = EventLogModel;

    closed spec fn view(&self) -> EventLogModel {
        EventLogModel { events: event_models(self.events@), capacity: self.capacity as nat }
    }
}

impl EventLog {
    /// The log holds no more than its capacity.
    pub open spec fn wf(&self) -> bool {
        self@.wf()
    }

    /// An empty log that retains the newest `capacity` events.
    pub fn new(capacity: usize) -> (log: Self)
        ensures
            log.wf(),
            log@ == EventLogModel::empty(capacity as nat),
    {
        let log = EventLog { events: VecDeque::new(), capacity };
        proof {
            assert(log@.events =~= Seq::<EventModel>::empty());
        }
        log
    }

    /// How many events the log retains at most.
    pub fn capacity(&self) -> (capacity: usize)
        ensures
            capacity as nat == self@.capacity,
    {
        self.capacity
    }

    /// Number of retained events.
    pub fn len(&self) -> (n: usize)
        ensures
            n as nat == self@.events.len(),
    {
        self.events.len()
    }

    /// The retained event at `index`, the oldest being at 0.
    pub fn get(&self, index: usize) -> (event: Option<&SecurityEvent>)
        ensures
            event.is_some() == (index < self@.events.len()),
            event.is_some() ==> event.unwrap()@ == self@.events.index(index as int),
    {
        if index < self.events.len() {
            Some(&self.events[index])
        } else {
            None
        }
    }

    /// Appends `event`, dropping the oldest event of a full log.
    pub fn append(&mut self, event: SecurityEvent)
        requires
            old(self).wf(),
        ensures
            final(self).wf(),
            final(self)@ == old(self)@.append(event@),
    {
        if self.capacity == 0 {
            proof {
                let all = old(self)@.events.push(event@);
                assert(all.skip(all.len() - 0) =~= Seq::<EventModel>::empty());
                assert(self@.events =~= Seq::<EventModel>::empty());
            }
            return ;
        }
        if self.events.len() >= self.capacity {
            let _ = self.events.pop_front();
        }
        self.events.push_back(event);
        proof {
            let all = old(self)@.events.push(event@);
            if all.len() > self.capacity {
                assert(self@.events =~= all.skip(all.len() - self.capacity));
            } else {
                assert(self@.events =~= all);
            }
        }
    }
}

/// The running statistics of an engine.
pub struct StatsAggregator {
    stats: SecurityStats,
}

impl View for StatsAggregator {
    type V = StatsModel;

    closed spec fn view(&self) -> StatsModel {
        self.stats@
    }
}

impl StatsAggregator {
    /// The statistics of an engine that has seen nothing yet.
    pub fn new() -> (aggregator: Self)
        ensures
            aggregator@ == StatsModel::initial(),
    {
        StatsAggregator { stats: SecurityStats::default() }
    }

    /// All fields as they stand together at this moment.
    pub fn snapshot(&self) -> (stats: SecurityStats)
        ensures
            stats@ == self@,
    {
        self.stats
    }

    /// Takes one more event into the statistics. The counters must have
    /// room for it.
    pub fn record(&mut self, event: &SecurityEvent)
        requires
            old(self)@.total_events < u64::MAX,
            event@.is_denial() ==> old(self)@.blocked_connections < u64::MAX,
        ensures
            final(self)@ == old(self)@.record(event@),
    {
        self.stats.total_events = self.stats.total_events + 1;
        self.stats.threat_level = self.stats.threat_level.max(event.threat_level);
        if event.is_denial() {
            self.stats.blocked_connections = self.stats.blocked_connections + 1;
        }
    }

    /// Counts one manual block. The counter must have room for it.
    pub fn note_block(&mut self)
        requires
            old(self)@.blocked_connections < u64::MAX,
        ensures
            final(self)@ == old(self)@.note_block(),
    {
        self.stats.blocked_connections = self.stats.blocked_connections + 1;
    }

    /// Notes a scan at `now`.
    pub fn mark_scan(&mut self, now: u64)
        ensures
            final(self)@ == old(self)@.mark_scan(now as nat),
    {
        self.stats.last_scan = now;
    }
}

} // verus!
