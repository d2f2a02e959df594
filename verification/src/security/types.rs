//! Plain data of the admission engine: threat levels, events, policy
//! configuration, statistics and decisions.

use vstd::prelude::*;

verus! {

/// Severity of a security event, totally ordered `Low < Medium < High < Critical`.
#[derive(Debug, Clone, Copy, PartialEq, Eq, Structural, PartialOrd, Ord, Hash)]
pub enum ThreatLevel {
    Low,
    Medium,
    High,
    Critical,
}

impl ThreatLevel {
    /// Position of the level in the order, `Low` being 0.
    pub open spec fn rank(self) -> nat {
        match self {
            ThreatLevel::Low => 0,
            ThreatLevel::Medium => 1,
            ThreatLevel::High => 2,
            ThreatLevel::Critical => 3,
        }
    }

    /// The higher of two levels.
    pub open spec fn spec_max(self, other: ThreatLevel) -> ThreatLevel {
        if other.rank() > self.rank() {
            other
        } else {
            self
        }
    }

    /// Position of the level in the order, `Low` being 0.
    pub fn severity(&self) -> (r: u8)
        ensures
            r as nat == self.rank(),
    {
        match self {
            ThreatLevel::Low => 0,
            ThreatLevel::Medium => 1,
            ThreatLevel::High => 2,
            ThreatLevel::Critical => 3,
        }
    }

    /// The higher of two levels.
    pub fn max(self, other: ThreatLevel) -> (r: ThreatLevel)
        ensures
            r == self.spec_max(other),
    {
        if other.severity() > self.severity() {
            other
        } else {
            self
        }
    }
}

/// Kind of entity that a security event is about.
#[derive(Debug, Clone, Copy, PartialEq, Eq, Structural, Hash)]
pub enum EntityType {
    Peer,
    IP,
    Node,
    Unknown,
}

/// Why a connection attempt was turned away.
#[derive(Debug, Clone, Copy, PartialEq, Eq, Structural, Hash)]
pub enum DenyReason {
    /// An allow list is in force and the address is not on it.
    NotAllowlisted,
    /// The address is on the static block list.
    StaticallyBlocked,
    /// The address is on the dynamic blacklist and its entry has not expired.
    Blacklisted,
    /// The address has used up its connection quota for the current window.
    QuotaExceeded,
}

/// Outcome of a connection admission.
#[derive(Debug, Clone, Copy, PartialEq, Eq, Structural, Hash)]
pub enum Decision {
    Permit,
    Deny(DenyReason),
}

/// What the static lists alone say about a key.
#[derive(Debug, Clone, Copy, PartialEq, Eq, Structural, Hash)]
pub enum StaticVerdict {
    Allowed,
    Denied,
    /// The static lists do not decide; the dynamic checks do.
    Unspecified,
}

/// Tag of the event recorded for an admitted connection.
pub open spec fn connection_success_tag() -> Seq<char> {
    "connection_success"@
}

/// Tag of the event recorded for a denied connection. An event with this tag
/// is a denial and counts towards `blocked_connections`.
pub open spec fn connection_failed_tag() -> Seq<char> {
    "connection_failed"@
}

impl DenyReason {
    /// The text that describes the reason in the event recorded for the denial.
    pub open spec fn description(self) -> Seq<char> {
        match self {
            DenyReason::NotAllowlisted => "address is not on the allow list"@,
            DenyReason::StaticallyBlocked => "address is on the static block list"@,
            DenyReason::Blacklisted => "address is blacklisted"@,
            DenyReason::QuotaExceeded => "connection quota exceeded"@,
        }
    }

    /// The text that describes the reason in the event recorded for the denial.
    pub fn describe(&self) -> (text: &'static str)
        ensures
            text@ == self.description(),
    {
        match self {
            DenyReason::NotAllowlisted => "address is not on the allow list",
            DenyReason::StaticallyBlocked => "address is on the static block list",
            DenyReason::Blacklisted => "address is blacklisted",
            DenyReason::QuotaExceeded => "connection quota exceeded",
        }
    }
}

impl Decision {
    /// Whether the connection may proceed.
    pub open spec fn permits(self) -> bool {
        self == Decision::Permit
    }

    /// Whether the connection may proceed.
    pub fn is_permit(&self) -> (r: bool)
        ensures
            r == self.permits(),
    {
        match self {
            Decision::Permit => true,
            Decision::Deny(_) => false,
        }
    }

    /// The text that describes the decision in the event recorded for it.
    pub open spec fn description(self) -> Seq<char> {
        match self {
            Decision::Permit => "connection admitted"@,
            Decision::Deny(reason) => reason.description(),
        }
    }

    /// The text that describes the decision in the event recorded for it.
    pub fn describe(&self) -> (text: &'static str)
        ensures
            text@ == self.description(),
    {
        match self {
            Decision::Permit => "connection admitted",
            Decision::Deny(reason) => reason.describe(),
        }
    }
}

/// Mathematical value of a [`SecurityEvent`].
pub struct EventModel {
    pub event_type: Seq<char>,
    pub entity_type: EntityType,
    pub entity_id: Seq<char>,
    pub threat_level: ThreatLevel,
    pub timestamp: nat,
    pub description: Seq<char>,
}

impl EventModel {
    /// An event is a denial iff it carries the tag of a denied connection.
    pub open spec fn is_denial(self) -> bool {
        self.event_type == connection_failed_tag()
    }
}

/// A security-relevant occurrence.
#[derive(Debug, Clone)]
pub struct SecurityEvent {
    pub event_type: String,
    pub entity_type: EntityType,
    pub entity_id: String,
    pub threat_level: ThreatLevel,
    pub timestamp: u64,
    pub description: String,
}

impl View for SecurityEvent {
    type V = EventModel;

    open spec fn view(&self) -> EventModel {
        EventModel {
            event_type: self.event_type@,
            entity_type: self.entity_type,
            entity_id: self.entity_id@,
            threat_level: self.threat_level,
            timestamp: self.timestamp as nat,
            description: self.description@,
        }
    }
}

/// Mathematical value of a [`SecurityConfig`]: the lists are sets.
pub struct PolicyModel {
    pub max_connections_per_ip: nat,
    pub max_messages_per_minute: nat,
    pub blacklist_enabled: bool,
    pub threat_detection_enabled: bool,
    pub allowed_ips: Set<Seq<char>>,
    pub blocked_ips: Set<Seq<char>>,
    pub blacklist_ttl_secs: nat,
}

/// The set of the strings in a list.
pub open spec fn string_set(list: Seq<String>) -> Set<Seq<char>> {
    Set::new(|key: Seq<char>| exists|i: int| 0 <= i < list.len() && #[trigger] list[i]@ == key)
}

/// Admission policy, fixed for the lifetime of an engine.
#[derive(Debug, Clone)]
pub struct SecurityConfig {
    pub max_connections_per_ip: usize,
    pub max_messages_per_minute: usize,
    pub blacklist_enabled: bool,
    pub threat_detection_enabled: bool,
    /// When not empty, only these addresses are admitted.
    pub allowed_ips: Vec<String>,
    pub blocked_ips: Vec<String>,
    /// Seconds for which an entry of the dynamic blacklist blocks its key.
    pub blacklist_ttl_secs: u64,
}

impl View for SecurityConfig {
    type V = PolicyModel;

    open spec fn view(&self) -> PolicyModel {
        PolicyModel {
            max_connections_per_ip: self.max_connections_per_ip as nat,
            max_messages_per_minute: self.max_messages_per_minute as nat,
            blacklist_enabled: self.blacklist_enabled,
            threat_detection_enabled: self.threat_detection_enabled,
            allowed_ips: string_set(self.allowed_ips@),
            blocked_ips: string_set(self.blocked_ips@),
            blacklist_ttl_secs: self.blacklist_ttl_secs as nat,
        }
    }
}

impl SecurityConfig {
    /// The policy of an engine for which nothing was configured: 10
    /// connections per address, 100 messages per peer, no lists, and an
    /// hour of blacklisting.
    pub open spec fn default_value() -> PolicyModel {
        PolicyModel {
            max_connections_per_ip: 10,
            max_messages_per_minute: 100,
            blacklist_enabled: true,
            threat_detection_enabled: true,
            allowed_ips: Set::empty(),
            blocked_ips: Set::empty(),
            blacklist_ttl_secs: 3600,
        }
    }
}

impl Default for SecurityConfig {
    fn default() -> (config: Self)
        ensures
            config.max_connections_per_ip == 10,
            config.max_messages_per_minute == 100,
            config.blacklist_enabled,
            config.threat_detection_enabled,
            config.allowed_ips@.len() == 0,
            config.blocked_ips@.len() == 0,
            config.blacklist_ttl_secs == 3600,
            config@ == Self::default_value(),
    {
        proof {
            assert(string_set(Seq::<String>::empty()) =~= Set::<Seq<char>>::empty());
        }
        SecurityConfig {
            max_connections_per_ip: 10,
            max_messages_per_minute: 100,
            blacklist_enabled: true,
            threat_detection_enabled: true,
            allowed_ips: Vec::new(),
            blocked_ips: Vec::new(),
            blacklist_ttl_secs: 3600,
        }
    }
}

/// Mathematical value of a [`SecurityStats`].
pub struct StatsModel {
    pub total_events: nat,
    pub blocked_connections: nat,
    pub threat_level: ThreatLevel,
    pub last_scan: nat,
    pub active_threats: nat,
}

impl StatsModel {
    /// The statistics of an engine that has seen nothing yet.
    pub open spec fn initial() -> StatsModel {
        StatsModel {
            total_events: 0,
            blocked_connections: 0,
            threat_level: ThreatLevel::Low,
            last_scan: 0,
            active_threats: 0,
        }
    }

    /// The statistics after one more event: one more in total, the running
    /// maximum of the threat level, and one more blocked connection if the
    /// event is a denial.
    pub open spec fn record(self, event: EventModel) -> StatsModel {
        StatsModel {
            total_events: self.total_events + 1,
            blocked_connections: if event.is_denial() {
                self.blocked_connections + 1
            } else {
                self.blocked_connections
            },
            threat_level: self.threat_level.spec_max(event.threat_level),
            ..self
        }
    }

    /// Whether both counters can count one more in a machine word.
    pub open spec fn has_room(self) -> bool {
        self.total_events < u64::MAX && self.blocked_connections < u64::MAX
    }

    /// The statistics after a manual block: one more blocked connection.
    pub open spec fn note_block(self) -> StatsModel {
        StatsModel { blocked_connections: self.blocked_connections + 1, ..self }
    }

    /// The statistics after a scan at `now`.
    pub open spec fn mark_scan(self, now: nat) -> StatsModel {
        StatsModel { last_scan: now, ..self }
    }
}

/// One snapshot of the counters and the threat level.
#[derive(Debug, Clone, Copy, PartialEq, Eq, Structural)]
pub struct SecurityStats {
    pub total_events: u64,
    pub blocked_connections: u64,
    pub threat_level: ThreatLevel,
    pub last_scan: u64,
    pub active_threats: usize,
}

impl View for SecurityStats {
    type V = StatsModel;

    open spec fn view(&self) -> StatsModel {
        StatsModel {
            total_events: self.total_events as nat,
            blocked_connections: self.blocked_connections as nat,
            threat_level: self.threat_level,
            last_scan: self.last_scan as nat,
            active_threats: self.active_threats as nat,
        }
    }
}

impl Default for SecurityStats {
    fn default() -> (stats: Self)
        ensures
            stats@ == StatsModel::initial(),
    {
        SecurityStats {
            total_events: 0,
            blocked_connections: 0,
            threat_level: ThreatLevel::Low,
            last_scan: 0,
            active_threats: 0,
        }
    }
}

} // verus!
