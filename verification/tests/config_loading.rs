use ghostwire::config::{
    default_magic_bytes, Config, Environment, DEFAULT_CONNECTION_TIMEOUT_SECS,
    DEFAULT_HANDSHAKE_TIMEOUT_SECS, DEFAULT_MAX_CONN_PER_MIN, DEFAULT_MAX_HANDSHAKE_ATTEMPTS,
    DEFAULT_STEALTH_VERSION,
};

fn empty_environment() -> Environment {
    Environment {
        host: None,
        port: None,
        max_connections_per_ip: None,
        matrix_bridge: false,
        meshtastic_bridge: false,
    }
}

#[test]
fn config_defaults() {
    let config = Config::default();
    assert_eq!(config.server.host, "127.0.0.1");
    assert_eq!(config.server.port, 8080);
    assert!(config.server.web_enabled);
    assert!(config.server.cli_enabled);
    assert_eq!(config.security.max_connections_per_ip, 10);
    assert_eq!(config.security.max_messages_per_minute, 100);
    assert!(config.security.blacklist_enabled);
    assert!(config.security.threat_detection_enabled);
    assert!(config.security.allowed_ips.is_empty());
    assert!(config.security.blocked_ips.is_empty());
    assert_eq!(config.security.key_rotation_interval_days, 7);
    assert!(config.network.mesh_enabled);
    assert!(!config.network.reticulum_enabled);
    assert!(!config.network.briar_enabled);
    assert!(!config.network.stealth_tcp_enabled);
    assert_eq!(config.network.max_peers, 50);
    assert_eq!(config.network.connection_timeout_secs, 30);
    assert_eq!(config.encryption.algorithm, "AES-256-GCM");
    assert_eq!(config.encryption.key_size, 32);
    assert_eq!(config.encryption.session_timeout_hours, 1);
    assert!(!config.features.matrix_bridge);
    assert!(!config.features.meshtastic_bridge);
    assert!(config.features.web_ui);
    assert!(config.features.cli);
    assert!(config.features.api);
}

#[test]
fn constants_have_their_values() {
    assert_eq!(default_magic_bytes(), *b"GWSTH");
    assert_eq!(DEFAULT_HANDSHAKE_TIMEOUT_SECS, 1);
    assert_eq!(DEFAULT_MAX_CONN_PER_MIN, 10);
    assert_eq!(DEFAULT_STEALTH_VERSION, 1);
    assert_eq!(DEFAULT_MAX_HANDSHAKE_ATTEMPTS, 3);
    assert_eq!(DEFAULT_CONNECTION_TIMEOUT_SECS, 30);
}

#[test]
fn environment_overrides_defaults() {
    let environment = Environment {
        host: Some("0.0.0.0".to_string()),
        port: Some("9090".to_string()),
        max_connections_per_ip: Some("25".to_string()),
        matrix_bridge: true,
        meshtastic_bridge: false,
    };
    let config = Config::from_env(&environment);
    assert_eq!(config.server.host, "0.0.0.0");
    assert_eq!(config.server.port, 9090);
    assert_eq!(config.security.max_connections_per_ip, 25);
    assert!(config.features.matrix_bridge);
    assert!(!config.features.meshtastic_bridge);
    assert_eq!(config.security.max_messages_per_minute, 100);
    assert!(config.features.web_ui);
}

#[test]
fn numbers_that_do_not_parse_leave_the_defaults() {
    for bad in ["", "+", "-1", "65536", " 80", "80 ", "8o", "0x50", "１２"] {
        let environment = Environment {
            port: Some(bad.to_string()),
            max_connections_per_ip: Some(bad.to_string()),
            ..empty_environment()
        };
        let config = Config::from_env(&environment);
        assert_eq!(config.server.port, 8080, "port from {:?}", bad);
        if bad != "65536" {
            assert_eq!(config.security.max_connections_per_ip, 10, "quota from {:?}", bad);
        }
    }
}

#[test]
fn numbers_parse_with_sign_and_leading_zeros() {
    let environment = Environment {
        port: Some("+0443".to_string()),
        max_connections_per_ip: Some("65536".to_string()),
        ..empty_environment()
    };
    let config = Config::from_env(&environment);
    assert_eq!(config.server.port, 443);
    assert_eq!(config.security.max_connections_per_ip, 65536);
    let environment = Environment { port: Some("65535".to_string()), ..empty_environment() };
    assert_eq!(Config::from_env(&environment).server.port, 65535);
    let environment = Environment { port: Some("0".to_string()), ..empty_environment() };
    assert_eq!(Config::from_env(&environment).server.port, 0);
}

#[test]
fn first_readable_file_decides() {
    let mut second = Config::default();
    second.server.port = 2222;
    let mut third = Config::default();
    third.server.port = 3333;
    let environment = Environment { port: Some("4444".to_string()), ..empty_environment() };
    let config = Config::load(vec![None, Some(second), Some(third)], &environment);
    assert_eq!(config.server.port, 2222);
}

#[test]
fn environment_decides_without_files() {
    let environment = Environment { port: Some("4444".to_string()), ..empty_environment() };
    assert_eq!(Config::load(vec![None, None, None], &environment).server.port, 4444);
    assert_eq!(Config::load(vec![], &environment).server.port, 4444);
}

#[test]
fn matrix_settings_need_the_bridge() {
    let mut config = Config::default();
    assert!(config.get_matrix_config(Some("h".to_string()), None, None).is_none());
    config.features.matrix_bridge = true;
    let defaults = config.get_matrix_config(None, None, None).unwrap();
    assert_eq!(defaults.homeserver, "https://matrix.org");
    assert_eq!(defaults.user, "@ghostwire:matrix.org");
    assert_eq!(defaults.access_token, "");
    let given = config
        .get_matrix_config(
            Some("https://example.org".to_string()),
            Some("@me:example.org".to_string()),
            Some("token".to_string()),
        )
        .unwrap();
    assert_eq!(given.homeserver, "https://example.org");
    assert_eq!(given.user, "@me:example.org");
    assert_eq!(given.access_token, "token");
}

#[test]
fn meshtastic_settings_need_the_bridge() {
    let mut config = Config::default();
    assert!(config.get_meshtastic_config(None, None).is_none());
    config.features.meshtastic_bridge = true;
    let defaults = config.get_meshtastic_config(None, None).unwrap();
    assert_eq!(defaults.device_path, "/dev/ttyUSB0");
    assert_eq!(defaults.channel, "main");
    let given = config
        .get_meshtastic_config(Some("/dev/ttyACM0".to_string()), Some("lab".to_string()))
        .unwrap();
    assert_eq!(given.device_path, "/dev/ttyACM0");
    assert_eq!(given.channel, "lab");
}
