use std::sync::Arc;

use ghostwire::adapter::{AdapterKind, AdapterRegistry, MatrixAdapter, MeshtasticAdapter};
use ghostwire::config::MatrixConfig;
use ghostwire::identity::Identity;
use ghostwire::keyed::KeyedMap;
use ghostwire::mesh::{MeshManager, ReticulumManager, ReticulumStats};
use ghostwire::message::Message;
use ghostwire::node::{Core, CoreError};
use ghostwire::security::types::ThreatLevel;
use ghostwire::transport::{TransportKind, TransportRegistry};

fn matrix() -> MatrixAdapter {
    MatrixAdapter {
        homeserver: "https://matrix.org".to_string(),
        user: "@u:matrix.org".to_string(),
        access_token: "t".to_string(),
    }
}

fn meshtastic() -> MeshtasticAdapter {
    MeshtasticAdapter { device_path: "/dev/ttyUSB0".to_string(), channel: "main".to_string() }
}

#[test]
fn transport_names_and_descriptions() {
    assert_eq!(TransportKind::Dummy.name(), "dummy");
    assert_eq!(TransportKind::Dummy.description(), "Dummy transport (placeholder)");
}

#[test]
fn dummy_transport_accepts_and_delivers_nothing() {
    let mut transport = TransportKind::Dummy;
    let message = Message::fresh("a", "b", "hello", 1, false, "text", "unknown");
    assert!(transport.send_message(&message).is_ok());
    assert_eq!(transport, TransportKind::Dummy);
    assert!(matches!(transport.receive_message(), Ok(None)));
}

#[test]
fn transport_registry_registers_by_name() {
    let mut registry = TransportRegistry::new();
    assert!(registry.list().is_empty());
    assert!(registry.get("dummy").is_none());
    registry.register(TransportKind::Dummy);
    assert_eq!(registry.get("dummy"), Some(&TransportKind::Dummy));
    assert!(registry.get("mesh").is_none());
    assert_eq!(registry.list(), vec!["dummy".to_string()]);
    registry.register(TransportKind::Dummy);
    assert_eq!(registry.list(), vec!["dummy".to_string()]);
}

#[test]
fn adapter_names_and_descriptions() {
    assert_eq!(matrix().name(), "matrix");
    assert_eq!(matrix().description(), "Matrix protocol bridge adapter");
    assert_eq!(meshtastic().name(), "meshtastic");
    assert_eq!(meshtastic().description(), "Meshtastic protocol bridge adapter");
    assert_eq!(AdapterKind::Matrix(matrix()).name(), "matrix");
    assert_eq!(AdapterKind::Meshtastic(meshtastic()).name(), "meshtastic");
    assert_eq!(
        AdapterKind::Matrix(matrix()).description(),
        "Matrix protocol bridge adapter"
    );
    assert_eq!(
        AdapterKind::Meshtastic(meshtastic()).description(),
        "Meshtastic protocol bridge adapter"
    );
}

#[test]
fn adapter_registry_registers_by_name() {
    let mut registry = AdapterRegistry::new();
    assert!(registry.list().is_empty());
    registry.register(AdapterKind::Meshtastic(meshtastic()));
    registry.register(AdapterKind::Matrix(matrix()));
    assert_eq!(registry.list(), vec!["meshtastic".to_string(), "matrix".to_string()]);
    match registry.get("matrix") {
        Some(AdapterKind::Matrix(adapter)) => assert_eq!(adapter.user, "@u:matrix.org"),
        other => panic!("unexpected adapter {:?}", other),
    }
    assert!(registry.get("irc").is_none());
    let mut other = meshtastic();
    other.channel = "lab".to_string();
    registry.register(AdapterKind::Meshtastic(other));
    assert_eq!(registry.list(), vec!["meshtastic".to_string(), "matrix".to_string()]);
    match registry.get("meshtastic") {
        Some(AdapterKind::Meshtastic(adapter)) => assert_eq!(adapter.channel, "lab"),
        other => panic!("unexpected adapter {:?}", other),
    }
}

#[test]
fn matrix_test_message() {
    let message = matrix().send_test_message("ping", 42, 1_700_000_000);
    assert_eq!(message.id, 42);
    assert_eq!(message.sender, "@u:matrix.org");
    assert_eq!(message.recipient, "!yourroomid:matrix.org");
    assert_eq!(message.content, "ping");
    assert_eq!(message.timestamp, 1_700_000_000);
    assert!(!message.encrypted);
    assert_eq!(message.message_type, "text");
    assert_eq!(message.encryption_status, "unknown");
}

#[test]
fn fresh_messages_have_their_own_identifiers() {
    let first = Message::fresh("a", "b", "c", 5, true, "irc", "encrypted");
    let second = Message::fresh("a", "b", "c", 5, true, "irc", "encrypted");
    assert_ne!(first.id, second.id);
    assert_eq!(first.sender, "a");
    assert_eq!(first.recipient, "b");
    assert_eq!(first.content, "c");
    assert_eq!(first.timestamp, 5);
    assert!(first.encrypted);
    assert_eq!(first.message_type, "irc");
    assert_eq!(first.encryption_status, "encrypted");
    let copy = first.duplicate();
    assert_eq!(copy.id, first.id);
    assert_eq!(copy.content, first.content);
}

#[test]
fn keyed_map_keeps_insertion_order() {
    let mut map: KeyedMap<u32> = KeyedMap::new();
    assert_eq!(map.len(), 0);
    map.insert("b", 2);
    map.insert("a", 1);
    map.insert("c", 3);
    map.insert("b", 20);
    assert_eq!(map.len(), 3);
    assert_eq!(map.keys(), vec!["b".to_string(), "a".to_string(), "c".to_string()]);
    assert_eq!(map.key_at(1), "a");
    assert_eq!(map.get("b"), Some(&20));
    assert!(map.contains_key("c"));
    assert!(!map.contains_key("d"));
    assert!(map.remove("a"));
    assert!(!map.remove("a"));
    assert_eq!(map.keys(), vec!["b".to_string(), "c".to_string()]);
    assert_eq!(map.get("a"), None);
    map.clear();
    assert_eq!(map.len(), 0);
    assert!(map.keys().is_empty());
}

#[test]
fn managers_keep_their_identity() {
    let identity = Arc::new(Identity::with_id("node-7".to_string()));
    let mesh = MeshManager::new(identity.clone());
    assert_eq!(mesh.get_peer_count(), 0);
    assert_eq!(mesh.identity.id, "node-7");
    let reticulum = ReticulumManager::new(identity);
    assert_eq!(reticulum.identity.id, "node-7");
    let stats = ReticulumStats::zero();
    assert_eq!(stats.node_count, 0);
    assert_eq!(stats.message_count, 0);
    assert_eq!(stats.uptime_seconds, 0);
}

#[test]
fn node_starts_with_its_adapters() {
    let identity = Arc::new(Identity::with_id("node-1".to_string()));
    let core = Core::new(identity.clone(), None);
    assert_eq!(core.get_identity_id(), "node-1");
    assert_eq!(core.adapter_registry.list(), vec!["meshtastic".to_string()]);
    assert!(core.transport_registry.list().is_empty());
    assert!(core.active_transport.is_none());
    assert!(core.active_adapter.is_none());
    let settings = MatrixConfig {
        homeserver: "https://example.org".to_string(),
        user: "@me:example.org".to_string(),
        access_token: "secret".to_string(),
    };
    let core = Core::new(identity, Some(settings));
    assert_eq!(core.adapter_registry.list(), vec!["matrix".to_string(), "meshtastic".to_string()]);
    match core.adapter_registry.get("matrix") {
        Some(AdapterKind::Matrix(adapter)) => {
            assert_eq!(adapter.homeserver, "https://example.org");
            assert_eq!(adapter.user, "@me:example.org");
            assert_eq!(adapter.access_token, "secret");
        }
        other => panic!("unexpected adapter {:?}", other),
    }
    match core.adapter_registry.get("meshtastic") {
        Some(AdapterKind::Meshtastic(adapter)) => {
            assert_eq!(adapter.device_path, "/dev/ttyUSB0");
            assert_eq!(adapter.channel, "main");
        }
        other => panic!("unexpected adapter {:?}", other),
    }
}

#[test]
fn node_selects_transports_and_adapters() {
    let identity = Arc::new(Identity::with_id("node-1".to_string()));
    let mut core = Core::new(identity, None);
    let message = Message::fresh("a", "b", "c", 1, false, "text", "unknown");
    assert!(matches!(core.send_message(&message), Ok(false)));
    match core.set_active_transport("dummy") {
        Err(CoreError::TransportNotFound(name)) => assert_eq!(name, "dummy"),
        other => panic!("unexpected result {:?}", other),
    }
    assert!(core.active_transport.is_none());
    core.transport_registry.register(TransportKind::Dummy);
    assert!(core.set_active_transport("dummy").is_ok());
    assert_eq!(core.active_transport, Some(TransportKind::Dummy));
    assert!(matches!(core.send_message(&message), Ok(true)));
    core.active_transport = None;
    core.init_default_transport();
    assert_eq!(core.active_transport, Some(TransportKind::Dummy));

    assert!(matches!(core.send_adapter_message(), Err(CoreError::NoActiveAdapter)));
    match core.set_active_adapter("matrix") {
        Err(CoreError::AdapterNotFound(name)) => assert_eq!(name, "matrix"),
        other => panic!("unexpected result {:?}", other),
    }
    assert!(core.set_active_adapter("meshtastic").is_ok());
    match core.send_adapter_message() {
        Ok(AdapterKind::Meshtastic(adapter)) => assert_eq!(adapter.channel, "main"),
        other => panic!("unexpected adapter {:?}", other),
    }
}

#[test]
fn node_errors_in_words() {
    assert_eq!(
        CoreError::TransportNotFound("mesh".to_string()).message(),
        "Transport not found: mesh"
    );
    assert_eq!(
        CoreError::AdapterNotFound("irc".to_string()).message(),
        "Adapter not found: irc"
    );
    assert_eq!(CoreError::NoActiveAdapter.message(), "No active adapter selected");
}

#[test]
fn node_reports() {
    let identity = Arc::new(Identity::with_id("node-1".to_string()));
    let mut core = Core::new(identity, None);
    assert_eq!(core.get_network_topology(), "Network topology not yet implemented");
    assert!(core.init_mesh().is_ok());
    assert!(core.init_reticulum().is_ok());
    assert!(core.connect_meshtastic("/dev/ttyUSB0").is_ok());
    assert!(core.connect_reticulum("rns://hub").is_ok());
    assert!(core.start_mesh("10.0.0.1").is_ok());
    assert!(core.get_mesh_topology().is_ok());
    assert!(core.active_transport.is_none());
    assert!(core.get_mesh_stats().is_none());
    assert!(core.get_reticulum_stats().is_none());
    assert!(core.get_reticulum_topology().is_none());
    let stats = core.get_security_stats();
    assert_eq!(stats.total_events, 0);
    core.security_manager.admit_connection("10.0.0.1", 5);
    let stats = core.get_security_stats();
    assert_eq!(stats.total_events, 1);
    assert_eq!(stats.threat_level, ThreatLevel::Low);
}
