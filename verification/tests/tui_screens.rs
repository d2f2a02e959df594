use ghostwire::timestamp::Timestamp;
use ghostwire::tui::config::{ConfigSection, ConfigState, FieldType};
use ghostwire::tui::logs::{LogLevel, LogSource, LogsState};
use ghostwire::tui::network::{NetworkState, PeerInfo};

fn now() -> Timestamp {
    Timestamp::new(1431648000, 0).unwrap()
}

fn peer(id: &str) -> PeerInfo {
    PeerInfo {
        id: id.to_string(),
        name: format!("peer {}", id),
        is_online: true,
        last_seen: 9,
        message_count: 2,
    }
}

#[test]
fn network_state_starts_empty() {
    let state = NetworkState::new();
    assert_eq!(state.peer_count, 0);
    assert_eq!(state.message_count, 0);
    assert!(!state.is_connected);
    assert_eq!(state.uptime_seconds, 0);
    assert!(state.selected_peer.is_none());
    assert!(state.peers.is_empty());
}

#[test]
fn network_state_updates() {
    let mut state = NetworkState::new();
    state.update_peer_count(4);
    state.update_message_count(17);
    state.set_connection_status(true);
    assert_eq!(state.peer_count, 4);
    assert_eq!(state.message_count, 17);
    assert!(state.is_connected);
    state.add_peer(peer("a"));
    state.add_peer(peer("b"));
    state.add_peer(peer("a"));
    state.add_peer(peer("c"));
    assert_eq!(state.peers.len(), 4);
    state.remove_peer("a");
    let ids: Vec<&str> = state.peers.iter().map(|p| p.id.as_str()).collect();
    assert_eq!(ids, vec!["b", "c"]);
    assert_eq!(state.peers[0].name, "peer b");
    assert_eq!(state.peers[0].last_seen, 9);
    state.remove_peer("z");
    assert_eq!(state.peers.len(), 2);
    assert_eq!(state.peer_count, 4);
    let copy = state.peers[1].duplicate();
    assert_eq!(copy.id, "c");
    assert_eq!(copy.message_count, 2);
}

#[test]
fn config_state_starts_with_three_fields() {
    let state = ConfigState::new();
    assert_eq!(state.current_section, ConfigSection::Network);
    assert!(state.selected_field.is_none());
    assert!(!state.edit_mode);
    assert_eq!(state.config_values.len(), 3);
    let host = state.get_field("host").unwrap();
    assert_eq!(host.value, "127.0.0.1");
    assert_eq!(host.description, "Server host address");
    assert_eq!(host.field_type, FieldType::String);
    let port = state.get_field("port").unwrap();
    assert_eq!(port.value, "8080");
    assert_eq!(port.description, "Server port");
    assert_eq!(port.field_type, FieldType::Number);
    let mesh = state.get_field("mesh_enabled").unwrap();
    assert_eq!(mesh.value, "true");
    assert_eq!(mesh.description, "Enable mesh networking");
    assert_eq!(mesh.field_type, FieldType::Boolean);
    assert!(state.get_field("Host").is_none());
}

#[test]
fn config_fields_are_set_by_name() {
    let mut state = ConfigState::new();
    state.set_field_value("port", "9000".to_string());
    assert_eq!(state.get_field("port").unwrap().value, "9000");
    assert_eq!(state.get_field("port").unwrap().description, "Server port");
    assert_eq!(state.get_field("host").unwrap().value, "127.0.0.1");
    state.set_field_value("unknown", "x".to_string());
    assert_eq!(state.config_values.len(), 3);
    let mut duplicate = state.config_values[1].clone();
    duplicate.value = "second".to_string();
    state.config_values.push(duplicate);
    state.set_field_value("port", "first".to_string());
    assert_eq!(state.config_values[1].value, "first");
    assert_eq!(state.config_values[3].value, "second");
    assert_eq!(state.get_field("port").unwrap().value, "first");
}

#[test]
fn logs_open_with_five_entries() {
    let logs = LogsState::new(now());
    assert_eq!(logs.max_entries, 1000);
    assert_eq!(logs.filter_level, LogLevel::Info);
    assert!(logs.filter_module.is_none());
    assert!(logs.auto_scroll);
    assert_eq!(logs.search_term, "");
    assert!(logs.selected_entry.is_none());
    assert_eq!(logs.entries.len(), 5);
    assert_eq!(logs.entries[0].message, "GhostWire TUI initialized successfully");
    assert_eq!(logs.entries[0].module, "System");
    assert_eq!(logs.entries[0].source, LogSource::System);
    assert_eq!(logs.entries[1].message, "Mesh network ready for connections");
    assert_eq!(logs.entries[2].level, LogLevel::Warning);
    assert_eq!(logs.entries[2].details, Some("Peer ID: node1".to_string()));
    assert_eq!(logs.entries[3].module, "Encryption");
    assert_eq!(logs.entries[4].level, LogLevel::Debug);
    assert_eq!(logs.entries[4].message, "Topology update: 3 nodes connected");
    assert_eq!(logs.entries[4].timestamp.seconds(), 1431648000);
    let empty = LogsState::empty();
    assert!(empty.entries.is_empty());
    assert_eq!(empty.max_entries, 1000);
}

#[test]
fn log_is_bounded() {
    let mut logs = LogsState::empty();
    logs.max_entries = 3;
    for i in 0..5 {
        logs.add_entry(LogLevel::Info, "m", &format!("e{}", i), None, LogSource::User, now());
    }
    let messages: Vec<&str> = logs.entries.iter().map(|e| e.message.as_str()).collect();
    assert_eq!(messages, vec!["e2", "e3", "e4"]);
    logs.max_entries = 0;
    logs.add_entry(LogLevel::Info, "m", "e5", Some("d"), LogSource::User, now());
    let messages: Vec<&str> = logs.entries.iter().map(|e| e.message.as_str()).collect();
    assert_eq!(messages, vec!["e3", "e4", "e5"]);
    assert_eq!(logs.entries[2].details, Some("d".to_string()));
    logs.clear();
    assert!(logs.entries.is_empty());
}

#[test]
fn log_filters() {
    let mut logs = LogsState::new(now());
    logs.add_entry(LogLevel::Error, "Network", "Link DOWN on eth0", None, LogSource::Network, now());
    logs.add_entry(LogLevel::Critical, "Security", "breach", None, LogSource::Security, now());
    let shown = |logs: &LogsState| -> Vec<String> {
        logs.get_filtered_entries().iter().map(|e| e.message.clone()).collect()
    };
    assert_eq!(shown(&logs).len(), 6);
    logs.set_filter_level(LogLevel::Debug);
    assert_eq!(shown(&logs).len(), 7);
    logs.set_filter_level(LogLevel::Warning);
    assert_eq!(
        shown(&logs),
        vec!["New peer detected - verification pending", "Link DOWN on eth0", "breach"]
    );
    logs.set_filter_level(LogLevel::Error);
    assert_eq!(shown(&logs), vec!["Link DOWN on eth0", "breach"]);
    logs.set_filter_level(LogLevel::Critical);
    assert_eq!(shown(&logs), vec!["breach"]);
    logs.set_filter_level(LogLevel::Info);
    logs.set_filter_module(Some("Network".to_string()));
    assert_eq!(shown(&logs), vec!["Mesh network ready for connections", "Link DOWN on eth0"]);
    logs.set_search_term("link down".to_string());
    assert_eq!(shown(&logs), vec!["Link DOWN on eth0"]);
    logs.set_filter_module(None);
    logs.set_search_term("NETWORK".to_string());
    assert_eq!(shown(&logs), vec!["Mesh network ready for connections"]);
    logs.set_search_term("nothing like it".to_string());
    assert!(shown(&logs).is_empty());
    logs.toggle_auto_scroll();
    assert!(!logs.auto_scroll);
    logs.toggle_auto_scroll();
    assert!(logs.auto_scroll);
}

#[test]
fn log_levels_and_sources_have_names() {
    assert_eq!(LogLevel::Debug.name(), "Debug");
    assert_eq!(LogLevel::Info.name(), "Info");
    assert_eq!(LogLevel::Warning.name(), "Warning");
    assert_eq!(LogLevel::Error.name(), "Error");
    assert_eq!(LogLevel::Critical.name(), "Critical");
    assert_eq!(LogLevel::Debug.severity(), 0);
    assert_eq!(LogLevel::Critical.severity(), 4);
    assert_eq!(LogSource::System.name(), "System");
    assert_eq!(LogSource::Network.name(), "Network");
    assert_eq!(LogSource::Security.name(), "Security");
    assert_eq!(LogSource::Encryption.name(), "Encryption");
    assert_eq!(LogSource::Mesh.name(), "Mesh");
    assert_eq!(LogSource::User.name(), "User");
    assert_eq!(LogSource::External.name(), "External");
}

#[test]
fn log_exports() {
    let mut logs = LogsState::empty();
    assert_eq!(logs.export_logs("json"), "[\n\n]");
    assert_eq!(logs.export_logs("csv"), "timestamp,level,module,message,source\n");
    assert_eq!(logs.export_logs("text"), "");
    logs.add_entry(LogLevel::Info, "System", "started", None, LogSource::System, now());
    logs.add_entry(
        LogLevel::Warning,
        "Mesh",
        "slow",
        Some("d"),
        LogSource::Mesh,
        Timestamp::new(1431648061, 500_000_000).unwrap(),
    );
    assert_eq!(
        logs.export_logs("json"),
        "[\n{\"timestamp\":\"2015-05-15 00:00:00 UTC\",\"level\":\"Info\",\"module\":\"System\",\"message\":\"started\"},\n{\"timestamp\":\"2015-05-15 00:01:01.500 UTC\",\"level\":\"Warning\",\"module\":\"Mesh\",\"message\":\"slow\"}\n]"
    );
    assert_eq!(
        logs.export_logs("csv"),
        "timestamp,level,module,message,source\n2015-05-15 00:00:00 UTC,Info,System,started,System\n2015-05-15 00:01:01.500 UTC,Warning,Mesh,slow,Mesh\n"
    );
    let text = "[2015-05-15 00:00:00] Info System: started\n[2015-05-15 00:01:01] Warning Mesh: slow";
    assert_eq!(logs.export_logs("text"), text);
    assert_eq!(logs.export_logs("xml"), text);
    assert_eq!(logs.export_logs("JSON"), text);
}
