use ghostwire::security::blacklist::BlacklistTable;
use ghostwire::security::events::{EventLog, StatsAggregator};
use ghostwire::security::policy::PolicyStore;
use ghostwire::security::quota::{ConnectionQuotaTracker, MessageQuotaTracker};
use ghostwire::security::types::{
    DenyReason, EntityType, SecurityConfig, SecurityEvent, StaticVerdict, ThreatLevel,
};

#[test]
fn policy_store_evaluates_the_lists() {
    let mut config = SecurityConfig::default();
    config.blocked_ips = vec!["1.1.1.1".to_string(), "2.2.2.2".to_string(), "1.1.1.1".to_string()];
    config.max_connections_per_ip = 3;
    config.max_messages_per_minute = 9;
    config.blacklist_ttl_secs = 77;
    config.blacklist_enabled = false;
    let store = PolicyStore::new(&config);
    assert_eq!(store.max_connections_per_ip(), 3);
    assert_eq!(store.max_messages_per_minute(), 9);
    assert_eq!(store.blacklist_ttl_secs(), 77);
    assert!(!store.blacklist_enabled());
    assert!(store.threat_detection_enabled());
    assert_eq!(store.evaluate_static("1.1.1.1"), StaticVerdict::Denied);
    assert_eq!(store.evaluate_static("2.2.2.2"), StaticVerdict::Denied);
    assert_eq!(store.evaluate_static("3.3.3.3"), StaticVerdict::Unspecified);
    assert_eq!(store.static_denial("1.1.1.1"), Some(DenyReason::StaticallyBlocked));
    assert_eq!(store.static_denial("3.3.3.3"), None);
    config.allowed_ips = vec!["3.3.3.3".to_string(), "1.1.1.1".to_string()];
    let store = PolicyStore::new(&config);
    assert_eq!(store.static_denial("3.3.3.3"), None);
    assert_eq!(store.static_denial("4.4.4.4"), Some(DenyReason::NotAllowlisted));
    assert_eq!(store.static_denial("2.2.2.2"), Some(DenyReason::NotAllowlisted));
    assert_eq!(store.static_denial("1.1.1.1"), Some(DenyReason::StaticallyBlocked));
    assert_eq!(store.evaluate_static("3.3.3.3"), StaticVerdict::Unspecified);
    assert_eq!(store.evaluate_static("4.4.4.4"), StaticVerdict::Denied);
}

#[test]
fn blacklist_table_expires_lazily_and_sweeps() {
    let mut table = BlacklistTable::new(10);
    assert_eq!(table.ttl(), 10);
    assert_eq!(table.len(), 0);
    table.block("a", 100);
    table.block("b", 105);
    table.block("c", 111);
    table.block("a", 101);
    assert_eq!(table.len(), 3);
    assert!(table.is_blocked("a", 110));
    assert!(!table.is_blocked("a", 111));
    assert!(table.is_blocked("b", 114));
    assert!(!table.is_blocked("b", 115));
    assert!(!table.is_blocked("d", 100));
    // expired entries stay until a sweep, and do not block
    assert_eq!(table.len(), 3);
    table.sweep(115);
    assert_eq!(table.len(), 1);
    assert!(table.is_blocked("c", 115));
    assert!(!table.is_blocked("a", 105));
    table.sweep(121);
    assert_eq!(table.len(), 0);
    table.sweep(121);
    assert_eq!(table.len(), 0);
}

#[test]
fn blacklist_with_no_time_to_live_blocks_nothing() {
    let mut table = BlacklistTable::new(0);
    table.block("a", 5);
    assert!(!table.is_blocked("a", 5));
    assert!(!table.is_blocked("a", 6));
    table.sweep(5);
    assert_eq!(table.len(), 0);
}

#[test]
fn connection_tracker_checks_then_counts() {
    let mut tracker = ConnectionQuotaTracker::new(2);
    assert_eq!(tracker.count("a"), 0);
    assert!(tracker.try_acquire("a"));
    assert!(tracker.try_acquire("a"));
    assert!(!tracker.try_acquire("a"));
    assert!(!tracker.try_acquire("a"));
    assert_eq!(tracker.count("a"), 2);
    assert!(tracker.try_acquire("b"));
    assert_eq!(tracker.count("b"), 1);
    tracker.reset();
    assert_eq!(tracker.count("a"), 0);
    assert!(tracker.try_acquire("a"));
    let mut none = ConnectionQuotaTracker::new(0);
    assert!(!none.try_acquire("a"));
    assert_eq!(none.count("a"), 0);
}

#[test]
fn message_tracker_counts_then_checks() {
    let mut tracker = MessageQuotaTracker::new(2);
    assert!(tracker.record("p"));
    assert!(tracker.record("p"));
    assert!(!tracker.record("p"));
    assert!(!tracker.record("p"));
    assert_eq!(tracker.count("p"), 4);
    assert_eq!(tracker.count("q"), 0);
    tracker.reset();
    assert_eq!(tracker.count("p"), 0);
    assert!(tracker.record("p"));
}

fn event(kind: &str, level: ThreatLevel, timestamp: u64) -> SecurityEvent {
    SecurityEvent {
        event_type: kind.to_string(),
        entity_type: EntityType::Node,
        entity_id: "n".to_string(),
        threat_level: level,
        timestamp,
        description: String::new(),
    }
}

#[test]
fn event_log_keeps_the_newest() {
    let mut log = EventLog::new(2);
    assert_eq!(log.capacity(), 2);
    assert_eq!(log.len(), 0);
    assert!(log.get(0).is_none());
    log.append(event("a", ThreatLevel::Low, 1));
    log.append(event("b", ThreatLevel::Low, 2));
    log.append(event("c", ThreatLevel::Low, 3));
    assert_eq!(log.len(), 2);
    assert_eq!(log.get(0).unwrap().timestamp, 2);
    assert_eq!(log.get(1).unwrap().event_type, "c");
    assert!(log.get(2).is_none());
}

#[test]
fn statistics_follow_the_events() {
    let mut stats = StatsAggregator::new();
    assert_eq!(stats.snapshot().total_events, 0);
    stats.record(&event("connection_failed", ThreatLevel::High, 1));
    stats.record(&event("connection_success", ThreatLevel::Low, 2));
    stats.record(&event("Connection_failed", ThreatLevel::Medium, 3));
    stats.note_block();
    stats.mark_scan(99);
    let snapshot = stats.snapshot();
    assert_eq!(snapshot.total_events, 3);
    assert_eq!(snapshot.blocked_connections, 2);
    assert_eq!(snapshot.threat_level, ThreatLevel::High);
    assert_eq!(snapshot.last_scan, 99);
    assert_eq!(snapshot.active_threats, 0);
    let attempt = SecurityEvent::connection_attempt("1.2.3.4", false, "why", 8);
    assert_eq!(attempt.event_type, "connection_failed");
    assert_eq!(attempt.entity_type, EntityType::IP);
    assert_eq!(attempt.entity_id, "1.2.3.4");
    assert_eq!(attempt.threat_level, ThreatLevel::Medium);
    assert_eq!(attempt.timestamp, 8);
    assert_eq!(attempt.description, "why");
    assert!(attempt.is_denial());
}
