//! The state of the terminal front end: what its screens hold and how keys
//! and commands change it. Drawing and reading keys are not part of it.

pub mod chat;
pub mod config;
pub mod events;
pub mod input;
pub mod irc;
pub mod logs;
pub mod network;

use vstd::prelude::*;
use crate::timestamp::Timestamp;
use crate::tui::chat::ChatState;
use crate::tui::config::ConfigState;
use crate::tui::logs::LogsState;
use crate::tui::network::NetworkState;

verus! {

/// What the keys mean at the moment.
#[derive(Debug, Clone, Copy, PartialEq, Eq, Structural)]
pub enum InputMode {
    /// Keys move about and switch screens.
    Normal,
    /// Keys type text.
    Insert,
    /// Keys type a command, as in vi.
    Command,
    /// Keys type a search term.
    Search,
    /// Keys choose from a menu.
    Menu,
}

/// The screen that is shown.
#[derive(Debug, Clone, Copy, PartialEq, Eq, Structural)]
pub enum AppState {
    MainMenu,
    Dashboard,
    Chat,
    Network,
    Config,
    Logs,
    About,
    Help,
    Security,
    Advanced,
    Diagnostics,
    Settings,
}

/// The tab that is open.
#[derive(Debug, Clone, Copy, PartialEq, Eq, Structural)]
pub enum Tab {
    Chat,
    Network,
    Config,
    Logs,
}

/// What the front end asks of the rest of the program.
#[derive(Debug, Clone)]
pub enum TuiMessage {
    SendMessage(String),
    ScanNetwork,
    ConnectNetwork,
    DisconnectNetwork,
    RefreshPeers,
    UpdateSecuritySettings,
    ExportKeys,
    ImportKeys,
    ShowLogs,
    EmergencyMode,
    StealthMode,
    PanicMode,
    BackupSystem,
    RestoreSystem,
    UpdateFirmware,
    SystemDiagnostics,
    NetworkDiagnostics,
    SecurityAudit,
    PerformanceTest,
    Quit,
}

/// Mathematical value of a [`TuiMessage`].
pub enum RequestModel {
    SendMessage(Seq<char>),
    ScanNetwork,
    ConnectNetwork,
    DisconnectNetwork,
    RefreshPeers,
    UpdateSecuritySettings,
    ExportKeys,
    ImportKeys,
    ShowLogs,
    EmergencyMode,
    StealthMode,
    PanicMode,
    BackupSystem,
    RestoreSystem,
    UpdateFirmware,
    SystemDiagnostics,
    NetworkDiagnostics,
    SecurityAudit,
    PerformanceTest,
    Quit,
}

impl View for TuiMessage {
    type V = RequestModel;

    open spec fn view(&self) -> RequestModel {
        match self {
            TuiMessage::SendMessage(text) => RequestModel::SendMessage(text@),
            TuiMessage::ScanNetwork => RequestModel::ScanNetwork,
            TuiMessage::ConnectNetwork => RequestModel::ConnectNetwork,
            TuiMessage::DisconnectNetwork => RequestModel::DisconnectNetwork,
            TuiMessage::RefreshPeers => RequestModel::RefreshPeers,
            TuiMessage::UpdateSecuritySettings => RequestModel::UpdateSecuritySettings,
            TuiMessage::ExportKeys => RequestModel::ExportKeys,
            TuiMessage::ImportKeys => RequestModel::ImportKeys,
            TuiMessage::ShowLogs => RequestModel::ShowLogs,
            TuiMessage::EmergencyMode => RequestModel::EmergencyMode,
            TuiMessage::StealthMode => RequestModel::StealthMode,
            TuiMessage::PanicMode => RequestModel::PanicMode,
            TuiMessage::BackupSystem => RequestModel::BackupSystem,
            TuiMessage::RestoreSystem => RequestModel::RestoreSystem,
            TuiMessage::UpdateFirmware => RequestModel::UpdateFirmware,
            TuiMessage::SystemDiagnostics => RequestModel::SystemDiagnostics,
            TuiMessage::NetworkDiagnostics => RequestModel::NetworkDiagnostics,
            TuiMessage::SecurityAudit => RequestModel::SecurityAudit,
            TuiMessage::PerformanceTest => RequestModel::PerformanceTest,
            TuiMessage::Quit => RequestModel::Quit,
        }
    }
}

/// The requests of a list.
pub open spec fn requests(outbox: Seq<TuiMessage>) -> Seq<RequestModel> {
    outbox.map_values(|message: TuiMessage| message@)
}

/// Switches of the advanced features.
#[derive(Debug, Clone, Copy, PartialEq, Eq, Structural)]
pub struct AdvancedFeatures {
    pub stealth_mode: bool,
    pub panic_mode: bool,
    pub emergency_mode: bool,
    pub auto_backup: bool,
    pub threat_detection: bool,
    pub performance_monitoring: bool,
    pub network_optimization: bool,
    pub encryption_rotation: bool,
    pub peer_verification: bool,
    pub traffic_obfuscation: bool,
}

impl Default for AdvancedFeatures {
    /// The three modes off, everything else on.
    fn default() -> (features: Self)
        ensures
            features == (AdvancedFeatures {
                stealth_mode: false,
                panic_mode: false,
                emergency_mode: false,
                auto_backup: true,
                threat_detection: true,
                performance_monitoring: true,
                network_optimization: true,
                encryption_rotation: true,
                peer_verification: true,
                traffic_obfuscation: true,
            }),
    {
        AdvancedFeatures {
            stealth_mode: false,
            panic_mode: false,
            emergency_mode: false,
            auto_backup: true,
            threat_detection: true,
            performance_monitoring: true,
            network_optimization: true,
            encryption_rotation: true,
            peer_verification: true,
            traffic_obfuscation: true,
        }
    }
}

/// A key of the keyboard, as far as the front end tells keys apart.
#[derive(Debug, Clone, Copy, PartialEq, Eq, Structural)]
pub enum Key {
    Char(char),
    Tab,
    Enter,
    Esc,
    Backspace,
    Left,
    Right,
    Up,
    Down,
    Other,
}

/// A key that was pressed, with or without the control key.
#[derive(Debug, Clone, Copy, PartialEq, Eq, Structural)]
pub struct KeyPress {
    pub code: Key,
    pub control: bool,
}

/// The state of the terminal front end.
pub struct TuiApp {
    pub chat_state: ChatState,
    pub network_state: NetworkState,
    pub config_state: ConfigState,
    pub logs_state: LogsState,
    pub current_tab: Tab,
    pub app_state: AppState,
    pub input_mode: InputMode,
    pub menu_selection: usize,
    pub should_quit: bool,
    /// The requests to the rest of the program that wait to be taken.
    pub outbox: Vec<TuiMessage>,
    pub identity_id: String,
    pub last_scan_time: Timestamp,
    pub scan_results: Vec<String>,
    pub security_alerts: Vec<String>,
    pub command_buffer: String,
    pub search_buffer: String,
    /// The notice on display, with the time from which it is shown.
    pub notification: Option<(String, Timestamp)>,
    pub advanced_features: AdvancedFeatures,
}

} // verus!
