use ghostwire::timestamp::Timestamp;
use ghostwire::tui::chat::MessageType;
use ghostwire::tui::events::{process_message, send_message, ALERT_CAPACITY, NOTICE_SECONDS};
use ghostwire::tui::input::{
    execute_command, execute_words, get_network_status, handle_command_mode, handle_input,
    handle_insert_mode, handle_menu_mode, handle_normal_mode, handle_search_mode,
};
use ghostwire::tui::{
    AdvancedFeatures, AppState, InputMode, Key, KeyPress, Tab, TuiApp, TuiMessage,
};

fn now() -> Timestamp {
    Timestamp::new(1_700_000_000, 0).unwrap()
}

fn later() -> Timestamp {
    Timestamp::new(1_700_000_060, 0).unwrap()
}

fn app() -> TuiApp {
    TuiApp::new("node-1".to_string(), now())
}

fn plain(code: Key) -> KeyPress {
    KeyPress { code, control: false }
}

fn ctrl(c: char) -> KeyPress {
    KeyPress { code: Key::Char(c), control: true }
}

fn kinds(app: &TuiApp) -> Vec<String> {
    app.outbox.iter().map(|m| format!("{:?}", m)).collect()
}

fn notice(app: &TuiApp) -> Option<String> {
    app.notification.as_ref().map(|(text, _)| text.clone())
}

#[test]
fn front_end_opens_on_the_main_menu() {
    let app = app();
    assert_eq!(app.current_tab, Tab::Chat);
    assert_eq!(app.app_state, AppState::MainMenu);
    assert_eq!(app.input_mode, InputMode::Normal);
    assert_eq!(app.menu_selection, 0);
    assert!(!app.should_quit);
    assert!(app.outbox.is_empty());
    assert_eq!(app.identity_id, "node-1");
    assert_eq!(app.last_scan_time.seconds(), 1_700_000_000);
    assert!(app.scan_results.is_empty());
    assert!(app.security_alerts.is_empty());
    assert_eq!(app.command_buffer, "");
    assert_eq!(app.search_buffer, "");
    assert!(app.notification.is_none());
    assert_eq!(app.advanced_features, AdvancedFeatures::default());
    assert!(!app.advanced_features.stealth_mode);
    assert!(!app.advanced_features.panic_mode);
    assert!(!app.advanced_features.emergency_mode);
    assert!(app.advanced_features.auto_backup);
    assert!(app.advanced_features.traffic_obfuscation);
    assert_eq!(app.chat_state.messages.len(), 7);
    assert_eq!(app.logs_state.entries.len(), 5);
    assert_eq!(app.config_state.config_values.len(), 3);
    assert!(app.network_state.peers.is_empty());
}

#[test]
fn normal_mode_switches_modes_tabs_and_screens() {
    let mut app = app();
    app.command_buffer = "old".to_string();
    app.search_buffer = "old".to_string();
    handle_normal_mode(&mut app, plain(Key::Char(':')));
    assert_eq!(app.input_mode, InputMode::Command);
    assert_eq!(app.command_buffer, "");
    handle_normal_mode(&mut app, plain(Key::Char('/')));
    assert_eq!(app.input_mode, InputMode::Search);
    assert_eq!(app.search_buffer, "");
    handle_normal_mode(&mut app, plain(Key::Char('i')));
    assert_eq!(app.input_mode, InputMode::Insert);
    for (key, tab) in [('2', Tab::Network), ('3', Tab::Config), ('4', Tab::Logs), ('1', Tab::Chat)] {
        handle_normal_mode(&mut app, plain(Key::Char(key)));
        assert_eq!(app.current_tab, tab);
    }
    for expected in [Tab::Network, Tab::Config, Tab::Logs, Tab::Chat] {
        handle_normal_mode(&mut app, plain(Key::Tab));
        assert_eq!(app.current_tab, expected);
    }
    for (key, screen) in [
        ('d', AppState::Dashboard),
        ('h', AppState::Help),
        ('a', AppState::About),
        ('s', AppState::Security),
        ('x', AppState::Advanced),
        ('g', AppState::Diagnostics),
    ] {
        handle_normal_mode(&mut app, plain(Key::Char(key)));
        assert_eq!(app.app_state, screen);
    }
    assert!(app.outbox.is_empty());
}

#[test]
fn plain_meanings_come_before_control() {
    let mut app = app();
    handle_normal_mode(&mut app, ctrl('s'));
    assert_eq!(app.app_state, AppState::Security);
    handle_normal_mode(&mut app, ctrl('2'));
    assert_eq!(app.current_tab, Tab::Network);
    assert!(app.outbox.is_empty());
}

#[test]
fn control_keys_ask_for_actions() {
    let mut app = app();
    for c in ['c', 'r', 'e', 'p', 't', '5', '6', '7', '8', '9', '0'] {
        handle_normal_mode(&mut app, ctrl(c));
    }
    app.network_state.is_connected = true;
    handle_normal_mode(&mut app, ctrl('c'));
    assert_eq!(
        kinds(&app),
        vec![
            "ConnectNetwork",
            "RefreshPeers",
            "EmergencyMode",
            "PanicMode",
            "StealthMode",
            "SystemDiagnostics",
            "NetworkDiagnostics",
            "SecurityAudit",
            "PerformanceTest",
            "BackupSystem",
            "UpdateFirmware",
            "DisconnectNetwork",
        ]
    );
    let taken = app.take_requests();
    assert_eq!(taken.len(), 12);
    assert!(app.outbox.is_empty());
    for c in ['c', 'r', '5', 'z'] {
        handle_normal_mode(&mut app, plain(Key::Char(c)));
    }
    handle_normal_mode(&mut app, ctrl('z'));
    handle_normal_mode(&mut app, plain(Key::Other));
    handle_normal_mode(&mut app, plain(Key::Backspace));
    assert!(app.outbox.is_empty());
    assert_eq!(app.app_state, AppState::MainMenu);
}

#[test]
fn menu_keys() {
    let mut app = app();
    handle_normal_mode(&mut app, plain(Key::Up));
    assert_eq!(app.menu_selection, 0);
    let targets = [
        AppState::Dashboard,
        AppState::Chat,
        AppState::Network,
        AppState::Security,
        AppState::Advanced,
        AppState::Diagnostics,
        AppState::Settings,
        AppState::About,
        AppState::Help,
    ];
    for (selection, target) in targets.iter().enumerate() {
        app.app_state = AppState::MainMenu;
        app.menu_selection = selection;
        handle_normal_mode(&mut app, plain(Key::Enter));
        assert_eq!(app.app_state, *target);
    }
    app.app_state = AppState::MainMenu;
    app.menu_selection = 9;
    handle_normal_mode(&mut app, plain(Key::Enter));
    assert_eq!(app.app_state, AppState::MainMenu);
    app.app_state = AppState::Chat;
    app.menu_selection = 0;
    handle_normal_mode(&mut app, plain(Key::Enter));
    assert_eq!(app.app_state, AppState::Chat);
    handle_normal_mode(&mut app, plain(Key::Down));
    handle_normal_mode(&mut app, plain(Key::Down));
    handle_normal_mode(&mut app, plain(Key::Up));
    assert_eq!(app.menu_selection, 1);
}

#[test]
fn stepping_back_and_quitting() {
    let mut app = app();
    app.app_state = AppState::Logs;
    handle_normal_mode(&mut app, plain(Key::Char('q')));
    assert_eq!(app.app_state, AppState::MainMenu);
    assert!(!app.should_quit);
    handle_normal_mode(&mut app, plain(Key::Esc));
    assert!(app.should_quit);
    let mut app = self::app();
    handle_normal_mode(&mut app, ctrl('q'));
    assert!(app.should_quit);
}

#[test]
fn insert_mode_edits_the_chat_line() {
    let mut app = app();
    app.input_mode = InputMode::Insert;
    handle_insert_mode(&mut app, plain(Key::Char('x')));
    assert_eq!(app.chat_state.get_input(), "");
    app.app_state = AppState::Chat;
    for c in "hi there".chars() {
        handle_insert_mode(&mut app, plain(Key::Char(c)));
    }
    handle_insert_mode(&mut app, plain(Key::Backspace));
    handle_insert_mode(&mut app, plain(Key::Left));
    handle_insert_mode(&mut app, plain(Key::Left));
    handle_insert_mode(&mut app, plain(Key::Right));
    assert_eq!(app.chat_state.get_input(), "hi ther");
    assert_eq!(app.chat_state.cursor_position, 6);
    handle_insert_mode(&mut app, plain(Key::Enter));
    assert_eq!(kinds(&app), vec!["SendMessage(\"hi ther\")"]);
    assert_eq!(app.chat_state.get_input(), "");
    assert_eq!(app.chat_state.cursor_position, 0);
    for c in " \t ".chars() {
        handle_insert_mode(&mut app, plain(Key::Char(c)));
    }
    handle_insert_mode(&mut app, plain(Key::Enter));
    assert_eq!(app.outbox.len(), 1);
    assert_eq!(app.chat_state.get_input(), " \t ");
    handle_insert_mode(&mut app, plain(Key::Tab));
    assert_eq!(app.input_mode, InputMode::Insert);
    handle_insert_mode(&mut app, plain(Key::Esc));
    assert_eq!(app.input_mode, InputMode::Normal);
}

#[test]
fn command_mode_executes_the_line() {
    let mut app = app();
    app.input_mode = InputMode::Command;
    for c in "scann".chars() {
        handle_command_mode(&mut app, plain(Key::Char(c)), now());
    }
    handle_command_mode(&mut app, plain(Key::Backspace), now());
    assert_eq!(app.command_buffer, "scan");
    handle_command_mode(&mut app, plain(Key::Left), now());
    assert_eq!(app.command_buffer, "scan");
    handle_command_mode(&mut app, plain(Key::Enter), later());
    assert_eq!(app.command_buffer, "");
    assert_eq!(app.input_mode, InputMode::Normal);
    assert_eq!(kinds(&app), vec!["ScanNetwork"]);
    assert_eq!(notice(&app), Some("Network scan initiated".to_string()));
    assert_eq!(app.notification.as_ref().unwrap().1.seconds(), 1_700_000_060);
    app.input_mode = InputMode::Command;
    app.command_buffer = "junk".to_string();
    handle_command_mode(&mut app, plain(Key::Esc), now());
    assert_eq!(app.command_buffer, "");
    assert_eq!(app.input_mode, InputMode::Normal);
    assert_eq!(app.outbox.len(), 1);
    handle_command_mode(&mut app, plain(Key::Backspace), now());
    assert_eq!(app.command_buffer, "");
}

#[test]
fn commands_of_the_command_line() {
    let table = [
        ("scan", "ScanNetwork", "Network scan initiated"),
        ("connect", "ConnectNetwork", "Connecting to network..."),
        ("disconnect", "DisconnectNetwork", "Disconnecting from network..."),
        ("refresh", "RefreshPeers", "Refreshing peer list..."),
        ("export", "ExportKeys", "Exporting keys..."),
        ("stealth", "StealthMode", "Stealth mode activated"),
        ("panic", "PanicMode", "PANIC MODE ACTIVATED"),
        ("emergency", "EmergencyMode", "EMERGENCY MODE ACTIVATED"),
        ("backup", "BackupSystem", "System backup initiated"),
        ("diagnostics", "SystemDiagnostics", "Running system diagnostics..."),
        ("audit", "SecurityAudit", "Security audit initiated"),
    ];
    for (word, request, text) in table {
        let mut app = app();
        execute_command(&mut app, &format!("  {} now", word), now());
        assert_eq!(kinds(&app), vec![request.to_string()]);
        assert_eq!(notice(&app), Some(text.to_string()));
    }
    let mut app = app();
    execute_command(&mut app, "help", now());
    assert_eq!(app.app_state, AppState::Help);
    assert!(!app.should_quit);
    execute_command(&mut app, "quit", now());
    assert!(app.should_quit);
    let mut app = self::app();
    execute_command(&mut app, "q", now());
    assert!(app.should_quit);
    execute_command(&mut app, "dance wildly", now());
    assert_eq!(notice(&app), Some("Unknown command: dance".to_string()));
    let mut app = self::app();
    execute_command(&mut app, "   ", now());
    execute_words(&mut app, &Vec::new(), now());
    assert!(app.notification.is_none());
    assert!(app.outbox.is_empty());
    execute_words(&mut app, &vec!["Scan".to_string()], now());
    assert_eq!(notice(&app), Some("Unknown command: Scan".to_string()));
}

#[test]
fn search_mode_sets_the_search_term() {
    let mut app = app();
    app.input_mode = InputMode::Search;
    for c in "meshh".chars() {
        handle_search_mode(&mut app, plain(Key::Char(c)));
    }
    handle_search_mode(&mut app, plain(Key::Backspace));
    assert_eq!(app.search_buffer, "mesh");
    handle_search_mode(&mut app, plain(Key::Enter));
    assert_eq!(app.logs_state.search_term, "mesh");
    assert_eq!(app.search_buffer, "");
    assert_eq!(app.input_mode, InputMode::Normal);
    app.input_mode = InputMode::Search;
    handle_search_mode(&mut app, plain(Key::Char('x')));
    handle_search_mode(&mut app, plain(Key::Esc));
    assert_eq!(app.logs_state.search_term, "mesh");
    assert_eq!(app.search_buffer, "");
    assert_eq!(app.input_mode, InputMode::Normal);
}

#[test]
fn menu_mode_moves_and_leaves() {
    let mut app = app();
    app.input_mode = InputMode::Menu;
    handle_menu_mode(&mut app, plain(Key::Up));
    assert_eq!(app.menu_selection, 0);
    handle_menu_mode(&mut app, plain(Key::Down));
    handle_menu_mode(&mut app, plain(Key::Down));
    handle_menu_mode(&mut app, plain(Key::Up));
    assert_eq!(app.menu_selection, 1);
    handle_menu_mode(&mut app, plain(Key::Char('q')));
    assert_eq!(app.input_mode, InputMode::Menu);
    handle_menu_mode(&mut app, plain(Key::Enter));
    assert_eq!(app.input_mode, InputMode::Normal);
    app.input_mode = InputMode::Menu;
    handle_menu_mode(&mut app, plain(Key::Esc));
    assert_eq!(app.input_mode, InputMode::Normal);
}

#[test]
fn keys_go_to_the_current_mode() {
    let mut app = app();
    handle_input(&mut app, plain(Key::Char(':')), now());
    handle_input(&mut app, plain(Key::Char('q')), now());
    assert_eq!(app.command_buffer, "q");
    handle_input(&mut app, plain(Key::Enter), now());
    assert!(app.should_quit);
    assert_eq!(app.input_mode, InputMode::Normal);
    handle_input(&mut app, plain(Key::Char('/')), now());
    handle_input(&mut app, plain(Key::Char('a')), now());
    assert_eq!(app.search_buffer, "a");
    assert_eq!(app.app_state, AppState::MainMenu);
    handle_input(&mut app, plain(Key::Esc), now());
    handle_input(&mut app, plain(Key::Char('i')), now());
    handle_input(&mut app, plain(Key::Char('d')), now());
    assert_eq!(app.app_state, AppState::MainMenu);
    handle_input(&mut app, plain(Key::Esc), now());
    handle_input(&mut app, plain(Key::Char('d')), now());
    assert_eq!(app.app_state, AppState::Dashboard);
    app.input_mode = InputMode::Menu;
    handle_input(&mut app, plain(Key::Down), now());
    assert_eq!(app.menu_selection, 1);
}

#[test]
fn network_status_line() {
    let mut app = app();
    assert_eq!(get_network_status(&app), "Peers: 0 | Messages: 0 | Status: DISCONNECTED");
    app.network_state.peer_count = 12;
    app.network_state.message_count = 340;
    app.network_state.is_connected = true;
    assert_eq!(get_network_status(&app), "Peers: 12 | Messages: 340 | Status: CONNECTED");
}

#[test]
fn requests_are_served() {
    let mut app = app();
    process_message(&mut app, &TuiMessage::SendMessage("hello".to_string()), None, later());
    let last = app.chat_state.messages.back().unwrap();
    assert_eq!(last.message.content, "hello");
    assert_eq!(last.message.sender, "node-1");
    assert_eq!(last.message.recipient, "all");
    assert!(last.message.encrypted);
    assert_eq!(last.message.message_type, "text");
    assert_eq!(last.message.encryption_status, "encrypted");
    assert_eq!(last.message.timestamp, 1_700_000_060);
    assert_eq!(last.message_type, MessageType::PrivMsg);
    assert_eq!(last.channel, Some("#ghostwire".to_string()));
    assert!(!last.is_own);

    process_message(&mut app, &TuiMessage::ScanNetwork, None, later());
    assert_eq!(app.last_scan_time.seconds(), 1_700_000_060);
    assert_eq!(
        app.scan_results,
        vec![
            "🔍 Scanning local network...",
            "📡 Checking for GhostWire nodes...",
            "✅ Found: node1 (192.168.1.101) - Online",
            "✅ Found: node2 (192.168.1.102) - Online",
            "⚠️  Found: unknown (192.168.1.103) - Unverified",
        ]
    );
    assert!(app.network_state.is_connected);
    assert_eq!(app.network_state.peer_count, 5);
    assert_eq!(app.network_state.message_count, 42);

    app.network_state.uptime_seconds = 77;
    process_message(&mut app, &TuiMessage::ConnectNetwork, None, later());
    assert!(app.network_state.is_connected);
    assert_eq!(app.network_state.uptime_seconds, 0);
    let last = app.chat_state.messages.back().unwrap();
    assert_eq!(last.message.content, "Network scan completed");
    assert_eq!(last.message.sender, "System");
    assert_eq!(last.message.message_type, "system");
    assert!(!last.message.encrypted);
    assert_eq!(last.message.encryption_status, "unencrypted");
    assert_eq!(last.message_type, MessageType::System);

    process_message(&mut app, &TuiMessage::RefreshPeers, None, later());
    assert_eq!(app.network_state.peer_count, 5);
    process_message(&mut app, &TuiMessage::RefreshPeers, Some(9), later());
    assert_eq!(app.network_state.peer_count, 9);
    assert_eq!(app.network_state.message_count, 9);

    process_message(&mut app, &TuiMessage::DisconnectNetwork, None, later());
    assert!(!app.network_state.is_connected);
    assert_eq!(app.network_state.peer_count, 0);
    assert_eq!(app.network_state.message_count, 0);
    assert_eq!(
        app.chat_state.messages.back().unwrap().message.content,
        "Disconnected from mesh network"
    );
    process_message(&mut app, &TuiMessage::ExportKeys, None, later());
    assert_eq!(
        app.chat_state.messages.back().unwrap().message.content,
        "Keys exported successfully"
    );
    process_message(&mut app, &TuiMessage::ImportKeys, None, later());
    assert_eq!(
        app.chat_state.messages.back().unwrap().message.content,
        "Keys imported successfully"
    );
    process_message(&mut app, &TuiMessage::ShowLogs, None, later());
    assert_eq!(app.app_state, AppState::Logs);
    process_message(&mut app, &TuiMessage::Quit, None, later());
    assert!(app.should_quit);
}

#[test]
fn modes_are_switched_over() {
    let mut app = app();
    process_message(&mut app, &TuiMessage::EmergencyMode, None, later());
    assert!(app.advanced_features.emergency_mode);
    assert_eq!(notice(&app), Some("EMERGENCY MODE ACTIVATED".to_string()));
    process_message(&mut app, &TuiMessage::EmergencyMode, None, later());
    assert!(!app.advanced_features.emergency_mode);
    assert_eq!(notice(&app), Some("Emergency mode deactivated".to_string()));
    process_message(&mut app, &TuiMessage::StealthMode, None, later());
    assert!(app.advanced_features.stealth_mode);
    assert_eq!(notice(&app), Some("STEALTH MODE ACTIVATED".to_string()));
    process_message(&mut app, &TuiMessage::StealthMode, None, later());
    assert_eq!(notice(&app), Some("Stealth mode deactivated".to_string()));
    process_message(&mut app, &TuiMessage::PanicMode, None, later());
    assert!(app.advanced_features.panic_mode);
    assert_eq!(notice(&app), Some("PANIC MODE ACTIVATED".to_string()));
    process_message(&mut app, &TuiMessage::PanicMode, None, later());
    assert_eq!(notice(&app), Some("Panic mode deactivated".to_string()));
    assert_eq!(app.notification.as_ref().unwrap().1.seconds(), 1_700_000_060);
    assert!(app.advanced_features.auto_backup);
}

#[test]
fn announcements() {
    let table = [
        (TuiMessage::BackupSystem, "System backup initiated"),
        (TuiMessage::RestoreSystem, "System restore initiated"),
        (TuiMessage::UpdateFirmware, "Firmware update initiated"),
        (TuiMessage::SystemDiagnostics, "System diagnostics running"),
        (TuiMessage::NetworkDiagnostics, "Network diagnostics running"),
        (TuiMessage::SecurityAudit, "Security audit running"),
        (TuiMessage::PerformanceTest, "Performance test running"),
    ];
    for (message, text) in table {
        let mut app = app();
        process_message(&mut app, &message, None, later());
        assert_eq!(notice(&app), Some(text.to_string()));
    }
}

#[test]
fn alerts_are_bounded() {
    let mut app = app();
    for i in 0..10 {
        app.security_alerts.push(format!("alert {}", i));
    }
    process_message(&mut app, &TuiMessage::UpdateSecuritySettings, None, later());
    assert_eq!(app.security_alerts.len(), ALERT_CAPACITY);
    assert_eq!(app.security_alerts[0], "alert 1");
    assert_eq!(app.security_alerts[9], "🔒 Security settings updated");
    let mut app = self::app();
    process_message(&mut app, &TuiMessage::UpdateSecuritySettings, None, later());
    assert_eq!(app.security_alerts, vec!["🔒 Security settings updated"]);
}

#[test]
fn keys_of_the_single_screens() {
    let mut app = app();
    for c in "/nick neo".chars() {
        ghostwire::tui::chat::handle_input(&mut app, plain(Key::Char(c)), now());
    }
    ghostwire::tui::chat::handle_input(&mut app, plain(Key::Enter), now());
    assert_eq!(app.chat_state.nickname, "neo");
    assert_eq!(app.chat_state.get_input(), "");
    assert!(app.outbox.is_empty());
    for c in "hello".chars() {
        ghostwire::tui::chat::handle_input(&mut app, plain(Key::Char(c)), now());
    }
    ghostwire::tui::chat::handle_input(&mut app, plain(Key::Backspace), now());
    ghostwire::tui::chat::handle_input(&mut app, plain(Key::Left), now());
    ghostwire::tui::chat::handle_input(&mut app, plain(Key::Right), now());
    ghostwire::tui::chat::handle_input(&mut app, plain(Key::Enter), now());
    assert_eq!(kinds(&app), vec!["SendMessage(\"hell\")"]);
    assert_eq!(app.chat_state.messages.back().unwrap().message.content, "hell");
    assert_eq!(app.chat_state.messages.back().unwrap().message.sender, "neo");
    for c in "/msg bob psst".chars() {
        ghostwire::tui::chat::handle_input(&mut app, plain(Key::Char(c)), now());
    }
    ghostwire::tui::chat::handle_input(&mut app, plain(Key::Enter), now());
    assert_eq!(kinds(&app), vec!["SendMessage(\"hell\")", "SendMessage(\"psst\")"]);
    let count = app.chat_state.messages.len();
    ghostwire::tui::chat::handle_input(&mut app, plain(Key::Enter), now());
    ghostwire::tui::chat::handle_input(&mut app, plain(Key::Tab), now());
    assert_eq!(app.chat_state.messages.len(), count);

    let mut app = self::app();
    for c in ['s', 'C', 'r', 'm', 't', 'x'] {
        ghostwire::tui::network::handle_input(&mut app, plain(Key::Char(c)));
    }
    app.network_state.is_connected = true;
    ghostwire::tui::network::handle_input(&mut app, plain(Key::Char('c')));
    ghostwire::tui::network::handle_input(&mut app, plain(Key::Enter));
    assert_eq!(
        kinds(&app),
        vec!["ScanNetwork", "ConnectNetwork", "RefreshPeers", "DisconnectNetwork"]
    );
    ghostwire::tui::network::handle_input(&mut app, plain(Key::Char('L')));
    assert_eq!(app.app_state, AppState::Logs);

    ghostwire::tui::config::handle_input(&mut app, plain(Key::Char('s')));
    assert_eq!(app.config_state.config_values.len(), 3);

    ghostwire::tui::logs::handle_input(&mut app, plain(Key::Char('a')), now());
    assert!(!app.logs_state.auto_scroll);
    ghostwire::tui::logs::handle_input(&mut app, plain(Key::Char('r')), later());
    let entry = app.logs_state.entries.back().unwrap();
    assert_eq!(entry.message, "Logs refreshed manually");
    assert_eq!(entry.module, "User");
    assert_eq!(entry.timestamp.seconds(), 1_700_000_060);
    ghostwire::tui::logs::handle_input(&mut app, plain(Key::Char('e')), later());
    assert_eq!(notice(&app), Some("Logs exported to logs.json".to_string()));
    ghostwire::tui::logs::handle_input(&mut app, plain(Key::Char('f')), now());
    assert_eq!(app.input_mode, InputMode::Search);
    ghostwire::tui::logs::handle_input(&mut app, plain(Key::Char('c')), now());
    assert_eq!(app.logs_state.entries.len(), 6);
    ghostwire::tui::logs::handle_input(&mut app, ctrl('c'), now());
    assert!(app.logs_state.entries.is_empty());
}

#[test]
fn user_messages_are_shown_and_returned() {
    let mut app = app();
    let message = send_message(&mut app, "over and out".to_string(), later());
    assert_eq!(message.content, "over and out");
    assert_eq!(message.sender, "node-1");
    assert_eq!(message.recipient, "all");
    assert_eq!(message.timestamp, 1_700_000_060);
    assert!(!message.encrypted);
    assert_eq!(message.message_type, "text");
    assert_eq!(message.encryption_status, "encrypted");
    let shown = app.chat_state.messages.back().unwrap();
    assert_eq!(shown.message.id, message.id);
    assert_eq!(shown.message.content, "over and out");
    assert_eq!(shown.message_type, MessageType::PrivMsg);
    assert_eq!(shown.channel, Some("#ghostwire".to_string()));
    assert_eq!(app.chat_state.message_history.back().unwrap().message.id, message.id);
}

#[test]
fn notices_expire_after_three_seconds() {
    let since = Timestamp::new(100, 500_000_000).unwrap();
    let mut app = app();
    assert_eq!(app.current_notice(since), None);
    app.notification = Some(("hello".to_string(), since));
    assert_eq!(app.current_notice(since), Some("hello".to_string()));
    assert_eq!(
        app.current_notice(Timestamp::new(103, 499_999_999).unwrap()),
        Some("hello".to_string())
    );
    assert_eq!(app.current_notice(Timestamp::new(50, 0).unwrap()), Some("hello".to_string()));
    assert!(app.notification.is_some());
    assert_eq!(app.current_notice(Timestamp::new(103, 500_000_000).unwrap()), None);
    assert!(app.notification.is_none());
    app.notification = Some(("again".to_string(), since));
    assert_eq!(app.current_notice(Timestamp::new(200, 0).unwrap()), None);
    assert!(app.notification.is_none());
    assert_eq!(NOTICE_SECONDS, 3);
}
