//! How the front end opens, and what the answers to its requests change.

use vstd::prelude::*;
use crate::keyed::names;
use crate::message::{Message, MessageModel};
use crate::timestamp::Timestamp;
use crate::tui::chat::{ChatState, MessageType, line_with, shown_lines};
use crate::tui::config::ConfigState;
use crate::tui::input::{ask_to_quit, notice_is, notify, only_chat_changed, show_screen};
use crate::tui::logs::LogsState;
use crate::tui::network::NetworkState;
use crate::tui::{
    AdvancedFeatures, AppState, InputMode, RequestModel, Tab, TuiApp, TuiMessage,
};

verus! {

/// How many security alerts the front end keeps.
pub const ALERT_CAPACITY: usize = 10;

/// For how many seconds a notice stays on display.
pub const NOTICE_SECONDS: i64 = 3;

/// Nanoseconds between two times, zero if the second is the earlier one.
pub open spec fn elapsed_nanos(since: Timestamp, now: Timestamp) -> int {
    let span = (now.spec_seconds() - since.spec_seconds()) * 1_000_000_000 + now.spec_nanos()
        - since.spec_nanos();
    if span < 0 {
        0
    } else {
        span
    }
}

/// Whether a notice shown from `since` is still on display at `now`: less
/// than three seconds have passed.
pub open spec fn still_shown(since: Timestamp, now: Timestamp) -> bool {
    elapsed_nanos(since, now) < NOTICE_SECONDS * 1_000_000_000
}

/// The lines that a scan of the network reports.
pub open spec fn scan_report() -> Seq<Seq<char>> {
    seq![
        "\u{1F50D} Scanning local network..."@,
        "\u{1F4E1} Checking for GhostWire nodes..."@,
        "\u{2705} Found: node1 (192.168.1.101) - Online"@,
        "\u{2705} Found: node2 (192.168.1.102) - Online"@,
        "\u{26A0}\u{FE0F}  Found: unknown (192.168.1.103) - Unverified"@,
    ]
}

/// The alert that the security settings were updated.
pub open spec fn settings_alert() -> Seq<char> {
    "\u{1F512} Security settings updated"@
}

/// Whether `after` is `before` with only its network screen changed.
pub open spec fn only_network_changed(before: TuiApp, after: TuiApp) -> bool {
    after == (TuiApp { network_state: after.network_state, ..before })
}

/// Whether `after` is `before` once a notice of the system with text
/// `content` was shown on the chat screen at `now`.
pub open spec fn system_said(
    before: ChatState,
    after: ChatState,
    content: Seq<char>,
    now: Timestamp,
) -> bool {
    shown_lines(
        before,
        after,
        seq![
            line_with(
                "system"@,
                "System"@,
                "all"@,
                content,
                false,
                "unencrypted"@,
                MessageType::System,
                Some(before.current_channel@),
                before.nickname@,
                now,
            ),
        ],
    )
}

/// Whether `after` is `before` once the message `content` of the node
/// itself was shown on the chat screen at `now`.
pub open spec fn message_shown(before: TuiApp, after: TuiApp, content: Seq<char>, now: Timestamp) -> bool {
    &&& only_chat_changed(before, after)
    &&& shown_lines(
        before.chat_state,
        after.chat_state,
        seq![
            line_with(
                "text"@,
                before.identity_id@,
                "all"@,
                content,
                true,
                "encrypted"@,
                MessageType::PrivMsg,
                Some(before.chat_state.current_channel@),
                before.chat_state.nickname@,
                now,
            ),
        ],
    )
}

/// Whether `after` is `before` once a scan of the network was done at
/// `now`: the report replaces the scan results, and the network counts as
/// connected with 5 peers and 42 messages.
pub open spec fn scan_done(before: TuiApp, after: TuiApp, now: Timestamp) -> bool {
    &&& after == (TuiApp {
        last_scan_time: now,
        scan_results: after.scan_results,
        network_state: after.network_state,
        ..before
    })
    &&& names(after.scan_results@) == scan_report()
    &&& after.network_state == (NetworkState {
        is_connected: true,
        peer_count: 5,
        message_count: 42,
        ..before.network_state
    })
}

/// Whether `after` is `before` once the network was connected at `now`:
/// connected with no uptime yet, and a notice on the chat screen.
pub open spec fn network_connected(before: TuiApp, after: TuiApp, now: Timestamp) -> bool {
    &&& after == (TuiApp {
        network_state: after.network_state,
        chat_state: after.chat_state,
        ..before
    })
    &&& after.network_state == (NetworkState {
        is_connected: true,
        uptime_seconds: 0,
        ..before.network_state
    })
    &&& system_said(before.chat_state, after.chat_state, "Network scan completed"@, now)
}

/// Whether `after` is `before` once the network was disconnected at `now`:
/// not connected, no peers or messages counted, and a notice on the chat
/// screen.
pub open spec fn network_disconnected(before: TuiApp, after: TuiApp, now: Timestamp) -> bool {
    &&& after == (TuiApp {
        network_state: after.network_state,
        chat_state: after.chat_state,
        ..before
    })
    &&& after.network_state == (NetworkState {
        is_connected: false,
        peer_count: 0,
        message_count: 0,
        ..before.network_state
    })
    &&& system_said(before.chat_state, after.chat_state, "Disconnected from mesh network"@, now)
}

/// Whether `after` is `before` once the peers were counted anew: with
/// `nodes` as the count of peers and of messages if the mesh gave one.
pub open spec fn peers_refreshed(before: TuiApp, after: TuiApp, nodes: Option<usize>) -> bool {
    match nodes {
        Some(count) => {
            &&& only_network_changed(before, after)
            &&& after.network_state == (NetworkState {
                peer_count: count,
                message_count: count,
                ..before.network_state
            })
        },
        None => after == before,
    }
}

/// Whether `after` is `before` once the security settings were updated:
/// with one more alert, of which the newest ten are kept.
pub open spec fn settings_updated(before: TuiApp, after: TuiApp) -> bool {
    &&& after == (TuiApp { security_alerts: after.security_alerts, ..before })
    &&& names(after.security_alerts@) == {
        let all = names(before.security_alerts@).push(settings_alert());
        if all.len() > ALERT_CAPACITY {
            all.skip(1)
        } else {
            all
        }
    }
}

/// Whether `after` is `before` with the emergency mode switched over and
/// the notice that says so.
pub open spec fn emergency_toggled(before: TuiApp, after: TuiApp, now: Timestamp) -> bool {
    &&& after == (TuiApp {
        advanced_features: AdvancedFeatures {
            emergency_mode: !before.advanced_features.emergency_mode,
            ..before.advanced_features
        },
        notification: after.notification,
        ..before
    })
    &&& notice_is(
        after,
        if before.advanced_features.emergency_mode {
            "Emergency mode deactivated"@
        } else {
            "EMERGENCY MODE ACTIVATED"@
        },
        now,
    )
}

/// Whether `after` is `before` with the stealth mode switched over and the
/// notice that says so.
pub open spec fn stealth_toggled(before: TuiApp, after: TuiApp, now: Timestamp) -> bool {
    &&& after == (TuiApp {
        advanced_features: AdvancedFeatures {
            stealth_mode: !before.advanced_features.stealth_mode,
            ..before.advanced_features
        },
        notification: after.notification,
        ..before
    })
    &&& notice_is(
        after,
        if before.advanced_features.stealth_mode {
            "Stealth mode deactivated"@
        } else {
            "STEALTH MODE ACTIVATED"@
        },
        now,
    )
}

/// Whether `after` is `before` with the panic mode switched over and the
/// notice that says so.
pub open spec fn panic_toggled(before: TuiApp, after: TuiApp, now: Timestamp) -> bool {
    &&& after == (TuiApp {
        advanced_features: AdvancedFeatures {
            panic_mode: !before.advanced_features.panic_mode,
            ..before.advanced_features
        },
        notification: after.notification,
        ..before
    })
    &&& notice_is(
        after,
        if before.advanced_features.panic_mode {
            "Panic mode deactivated"@
        } else {
            "PANIC MODE ACTIVATED"@
        },
        now,
    )
}

/// The notice that acknowledges a request which the front end only
/// announces.
pub open spec fn acknowledgement(request: RequestModel) -> Option<Seq<char>> {
    match request {
        RequestModel::BackupSystem => Some("System backup initiated"@),
        RequestModel::RestoreSystem => Some("System restore initiated"@),
        RequestModel::UpdateFirmware => Some("Firmware update initiated"@),
        RequestModel::SystemDiagnostics => Some("System diagnostics running"@),
        RequestModel::NetworkDiagnostics => Some("Network diagnostics running"@),
        RequestModel::SecurityAudit => Some("Security audit running"@),
        RequestModel::PerformanceTest => Some("Performance test running"@),
        _ => None,
    }
}

/// Whether `after` is what the request `request` makes of `before` when
/// it is served at `now`. `nodes` is the count of nodes that the mesh
/// gives, if it gives one.
pub open spec fn request_served(
    before: TuiApp,
    after: TuiApp,
    request: RequestModel,
    nodes: Option<usize>,
    now: Timestamp,
) -> bool {
    match request {
        RequestModel::SendMessage(content) => message_shown(before, after, content, now),
        RequestModel::ScanNetwork => scan_done(before, after, now),
        RequestModel::ConnectNetwork => network_connected(before, after, now),
        RequestModel::DisconnectNetwork => network_disconnected(before, after, now),
        RequestModel::RefreshPeers => peers_refreshed(before, after, nodes),
        RequestModel::UpdateSecuritySettings => settings_updated(before, after),
        RequestModel::ExportKeys => only_chat_changed(before, after) && system_said(
            before.chat_state,
            after.chat_state,
            "Keys exported successfully"@,
            now,
        ),
        RequestModel::ImportKeys => only_chat_changed(before, after) && system_said(
            before.chat_state,
            after.chat_state,
            "Keys imported successfully"@,
            now,
        ),
        RequestModel::ShowLogs => after == (TuiApp { app_state: AppState::Logs, ..before }),
        RequestModel::EmergencyMode => emergency_toggled(before, after, now),
        RequestModel::StealthMode => stealth_toggled(before, after, now),
        RequestModel::PanicMode => panic_toggled(before, after, now),
        RequestModel::Quit => after == (TuiApp { should_quit: true, ..before }),
        _ => {
            &&& after == (TuiApp { notification: after.notification, ..before })
            &&& acknowledgement(request).is_some()
            &&& notice_is(after, acknowledgement(request).unwrap(), now)
        },
    }
}

/// Whether `app` is the front end as it opens at `now` for the node
/// `identity_id`: the main menu in normal mode, every screen as it opens,
/// nothing asked, nothing found, no notice.
pub open spec fn opens_at(app: TuiApp, identity_id: Seq<char>, now: Timestamp) -> bool {
    &&& ChatState::opens_at(app.chat_state, now)
    &&& NetworkState::is_initial(app.network_state)
    &&& ConfigState::is_initial(app.config_state)
    &&& LogsState::opens_at(app.logs_state, now)
    &&& app.current_tab == Tab::Chat
    &&& app.app_state == AppState::MainMenu
    &&& app.input_mode == InputMode::Normal
    &&& app.menu_selection == 0
    &&& !app.should_quit
    &&& app.outbox@.len() == 0
    &&& app.identity_id@ == identity_id
    &&& app.last_scan_time == now
    &&& app.scan_results@.len() == 0
    &&& app.security_alerts@.len() == 0
    &&& app.command_buffer@.len() == 0
    &&& app.search_buffer@.len() == 0
    &&& app.notification.is_none()
    &&& app.advanced_features == (AdvancedFeatures {
        stealth_mode: false,
        panic_mode: false,
        emergency_mode: false,
        auto_backup: true,
        threat_detection: true,
        performance_monitoring: true,
        network_optimization: true,
        encryption_rotation: true,
        peer_verification: true,
        traffic_obfuscation: true,
    })
}

/// Shows a notice of the system on the chat screen.
fn say_system(app: &mut TuiApp, content: &str, now: Timestamp)
    ensures
        only_chat_changed(*old(app), *final(app)),
        system_said(old(app).chat_state, final(app).chat_state, content@, now),
{
    let channel = app.chat_state.current_channel.clone();
    app.chat_state.post(
        "system",
        "System",
        "all",
        content,
        false,
        "unencrypted",
        MessageType::System,
        Some(channel),
        now,
    );
}

/// Records a scan of the network.
fn finish_scan(app: &mut TuiApp, now: Timestamp)
    ensures
        scan_done(*old(app), *final(app), now),
{
    app.last_scan_time = now;
    let mut report: Vec<String> = Vec::new();
    report.push("\u{1F50D} Scanning local network...".to_owned());
    report.push("\u{1F4E1} Checking for GhostWire nodes...".to_owned());
    report.push("\u{2705} Found: node1 (192.168.1.101) - Online".to_owned());
    report.push("\u{2705} Found: node2 (192.168.1.102) - Online".to_owned());
    report.push("\u{26A0}\u{FE0F}  Found: unknown (192.168.1.103) - Unverified".to_owned());
    proof {
        assert(names(report@) =~= scan_report());
    }
    app.scan_results = report;
    app.network_state.is_connected = true;
    app.network_state.peer_count = 5;
    app.network_state.message_count = 42;
}

/// Records that the network is connected.
fn finish_connect(app: &mut TuiApp, now: Timestamp)
    ensures
        network_connected(*old(app), *final(app), now),
{
    app.network_state.is_connected = true;
    app.network_state.uptime_seconds = 0;
    say_system(app, "Network scan completed", now);
}

/// Records that the network is disconnected.
fn finish_disconnect(app: &mut TuiApp, now: Timestamp)
    ensures
        network_disconnected(*old(app), *final(app), now),
{
    app.network_state.is_connected = false;
    app.network_state.peer_count = 0;
    app.network_state.message_count = 0;
    say_system(app, "Disconnected from mesh network", now);
}

/// Takes the count of nodes of the mesh as the count of peers and messages.
fn finish_refresh(app: &mut TuiApp, nodes: Option<usize>)
    ensures
        peers_refreshed(*old(app), *final(app), nodes),
{
    match nodes {
        Some(count) => {
            app.network_state.peer_count = count;
            app.network_state.message_count = count;
        },
        None => {},
    }
}

/// Records that the security settings were updated.
fn finish_settings_update(app: &mut TuiApp)
    ensures
        settings_updated(*old(app), *final(app)),
{
    let ghost before = names(app.security_alerts@);
    app.security_alerts.push("\u{1F512} Security settings updated".to_owned());
    proof {
        assert(names(app.security_alerts@) =~= before.push(settings_alert()));
    }
    if app.security_alerts.len() > ALERT_CAPACITY {
        let ghost full = app.security_alerts@;
        let _ = app.security_alerts.remove(0);
        proof {
            assert(names(app.security_alerts@) =~= names(full).skip(1));
        }
    }
}

/// Switches the emergency mode over.
fn toggle_emergency(app: &mut TuiApp, now: Timestamp)
    ensures
        emergency_toggled(*old(app), *final(app), now),
{
    app.advanced_features.emergency_mode = !app.advanced_features.emergency_mode;
    let text = if app.advanced_features.emergency_mode {
        "EMERGENCY MODE ACTIVATED"
    } else {
        "Emergency mode deactivated"
    };
    app.notification = Some((text.to_owned(), now));
}

/// Switches the stealth mode over.
fn toggle_stealth(app: &mut TuiApp, now: Timestamp)
    ensures
        stealth_toggled(*old(app), *final(app), now),
{
    app.advanced_features.stealth_mode = !app.advanced_features.stealth_mode;
    let text = if app.advanced_features.stealth_mode {
        "STEALTH MODE ACTIVATED"
    } else {
        "Stealth mode deactivated"
    };
    app.notification = Some((text.to_owned(), now));
}

/// Switches the panic mode over.
fn toggle_panic(app: &mut TuiApp, now: Timestamp)
    ensures
        panic_toggled(*old(app), *final(app), now),
{
    app.advanced_features.panic_mode = !app.advanced_features.panic_mode;
    let text = if app.advanced_features.panic_mode {
        "PANIC MODE ACTIVATED"
    } else {
        "Panic mode deactivated"
    };
    app.notification = Some((text.to_owned(), now));
}

/// Shows a message of the node itself on the chat screen.
fn show_own_message(app: &mut TuiApp, content: &str, now: Timestamp)
    ensures
        message_shown(*old(app), *final(app), content@, now),
{
    let sender = app.identity_id.clone();
    let channel = app.chat_state.current_channel.clone();
    app.chat_state.post(
        "text",
        sender.as_str(),
        "all",
        content,
        true,
        "encrypted",
        MessageType::PrivMsg,
        Some(channel),
        now,
    );
}

impl TuiApp {
    /// The front end as it opens at `now` for the node `identity_id`.
    pub fn new(identity_id: String, now: Timestamp) -> (app: Self)
        ensures
            opens_at(app, identity_id@, now),
    {
        TuiApp {
            chat_state: ChatState::new(now),
            network_state: NetworkState::new(),
            config_state: ConfigState::new(),
            logs_state: LogsState::new(now),
            current_tab: Tab::Chat,
            app_state: AppState::MainMenu,
            input_mode: InputMode::Normal,
            menu_selection: 0,
            should_quit: false,
            outbox: Vec::new(),
            identity_id,
            last_scan_time: now,
            scan_results: Vec::new(),
            security_alerts: Vec::new(),
            command_buffer: String::new(),
            search_buffer: String::new(),
            notification: None,
            advanced_features: AdvancedFeatures::default(),
        }
    }

    /// The notice to display at `now`, if there is one that has been on
    /// display for less than three seconds. An older notice is taken down.
    pub fn current_notice(&mut self, now: Timestamp) -> (notice: Option<String>)
        ensures
            match old(self).notification {
                Some((text, since)) => if still_shown(since, now) {
                    *final(self) == *old(self) && notice.is_some() && notice.unwrap()@ == text@
                } else {
                    *final(self) == (TuiApp { notification: None, ..*old(self) })
                        && notice.is_none()
                },
                None => *final(self) == *old(self) && notice.is_none(),
            },
    {
        let shown = match &self.notification {
            Some((text, since)) => {
                let seconds = now.seconds() - since.seconds();
                let now_nanos = now.nanos();
                let since_nanos = since.nanos();
                let fresh = seconds < NOTICE_SECONDS || (seconds == NOTICE_SECONDS && now_nanos
                    < since_nanos);
                if fresh {
                    Some(text.clone())
                } else {
                    None
                }
            },
            None => {
                return None;
            },
        };
        if shown.is_none() {
            self.notification = None;
        }
        shown
    }

    /// Takes the requests that wait in the outbox, oldest first, and
    /// leaves the outbox empty.
    pub fn take_requests(&mut self) -> (taken: Vec<TuiMessage>)
        ensures
            taken@ == old(self).outbox@,
            *final(self) == (TuiApp { outbox: final(self).outbox, ..*old(self) }),
            final(self).outbox@.len() == 0,
    {
        let mut taken: Vec<TuiMessage> = Vec::new();
        std::mem::swap(&mut taken, &mut self.outbox);
        taken
    }
}

/// Whether `after` is `before` once the user has sent `content` at `now`:
/// the chat screen shows it as an unencrypted text message of the node to
/// all.
pub open spec fn message_sent(before: TuiApp, after: TuiApp, content: Seq<char>, now: Timestamp) -> bool {
    &&& only_chat_changed(before, after)
    &&& shown_lines(
        before.chat_state,
        after.chat_state,
        seq![
            line_with(
                "text"@,
                before.identity_id@,
                "all"@,
                content,
                false,
                "encrypted"@,
                MessageType::PrivMsg,
                Some(before.chat_state.current_channel@),
                before.chat_state.nickname@,
                now,
            ),
        ],
    )
}

/// Shows the message `content` that the user sends at `now` on the chat
/// screen. Returns the message, which is to go to the network.
pub fn send_message(app: &mut TuiApp, content: String, now: Timestamp) -> (message: Message)
    ensures
        message_sent(*old(app), *final(app), content@, now),
        message@ == (MessageModel {
            id: message.id,
            sender: old(app).identity_id@,
            recipient: "all"@,
            content: content@,
            timestamp: now.spec_seconds() as nat,
            encrypted: false,
            message_type: "text"@,
            encryption_status: "encrypted"@,
        }),
{
    let message = Message::fresh(
        app.identity_id.as_str(),
        "all",
        content.as_str(),
        now.seconds() as u64,
        false,
        "text",
        "encrypted",
    );
    let channel = app.chat_state.current_channel.clone();
    app.chat_state.show(message.duplicate(), MessageType::PrivMsg, Some(channel), now);
    message
}

/// Serves the request `message` at `now`: changes the front end as the
/// request calls for. `nodes` is the count of nodes that the mesh gives, if
/// it gives one.
pub fn process_message(app: &mut TuiApp, message: &TuiMessage, nodes: Option<usize>, now: Timestamp)
    ensures
        request_served(*old(app), *final(app), message@, nodes, now),
{
    match message {
        TuiMessage::SendMessage(content) => show_own_message(app, content.as_str(), now),
        TuiMessage::ScanNetwork => finish_scan(app, now),
        TuiMessage::ConnectNetwork => finish_connect(app, now),
        TuiMessage::DisconnectNetwork => finish_disconnect(app, now),
        TuiMessage::RefreshPeers => finish_refresh(app, nodes),
        TuiMessage::UpdateSecuritySettings => finish_settings_update(app),
        TuiMessage::ExportKeys => say_system(app, "Keys exported successfully", now),
        TuiMessage::ImportKeys => say_system(app, "Keys imported successfully", now),
        TuiMessage::ShowLogs => show_screen(app, AppState::Logs),
        TuiMessage::EmergencyMode => toggle_emergency(app, now),
        TuiMessage::StealthMode => toggle_stealth(app, now),
        TuiMessage::PanicMode => toggle_panic(app, now),
        TuiMessage::BackupSystem => notify(app, "System backup initiated", now),
        TuiMessage::RestoreSystem => notify(app, "System restore initiated", now),
        TuiMessage::UpdateFirmware => notify(app, "Firmware update initiated", now),
        TuiMessage::SystemDiagnostics => notify(app, "System diagnostics running", now),
        TuiMessage::NetworkDiagnostics => notify(app, "Network diagnostics running", now),
        TuiMessage::SecurityAudit => notify(app, "Security audit running", now),
        TuiMessage::PerformanceTest => notify(app, "Performance test running", now),
        TuiMessage::Quit => ask_to_quit(app),
    }
}

} // verus!
