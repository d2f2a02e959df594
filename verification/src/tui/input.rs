//! How keys change the front end, by input mode.

use vstd::prelude::*;
use vstd::string::StringExecFns;
use crate::keyed::names;
use crate::text::{
    decimal_text, number_text, push_char, same_text, split_whitespace, trim, trimmed,
    whitespace_split, without_last,
};
use crate::timestamp::Timestamp;
use crate::tui::chat::{deleted, input_cleared, moved_left, moved_right, typed};
use crate::tui::logs::LogsState;
use crate::tui::{AppState, InputMode, Key, KeyPress, RequestModel, Tab, TuiApp, TuiMessage, requests};

verus! {

/// The tab after `tab`, the first following the last.
pub open spec fn next_tab(tab: Tab) -> Tab {
    match tab {
        Tab::Chat => Tab::Network,
        Tab::Network => Tab::Config,
        Tab::Config => Tab::Logs,
        Tab::Logs => Tab::Chat,
    }
}

/// The screen that the entry at `selection` of the main menu opens.
pub open spec fn menu_target(selection: usize) -> Option<AppState> {
    if selection == 0 {
        Some(AppState::Dashboard)
    } else if selection == 1 {
        Some(AppState::Chat)
    } else if selection == 2 {
        Some(AppState::Network)
    } else if selection == 3 {
        Some(AppState::Security)
    } else if selection == 4 {
        Some(AppState::Advanced)
    } else if selection == 5 {
        Some(AppState::Diagnostics)
    } else if selection == 6 {
        Some(AppState::Settings)
    } else if selection == 7 {
        Some(AppState::About)
    } else if selection == 8 {
        Some(AppState::Help)
    } else {
        None
    }
}

/// Whether `after` is `before` with `request` added to the outbox.
pub open spec fn requested(before: TuiApp, after: TuiApp, request: RequestModel) -> bool {
    &&& after == (TuiApp { outbox: after.outbox, ..before })
    &&& requests(after.outbox@) == requests(before.outbox@).push(request)
}

/// Whether `after` is `before` one step back: on the main menu the front
/// end is to quit, elsewhere the main menu is shown.
pub open spec fn stepped_back(before: TuiApp, after: TuiApp) -> bool {
    if before.app_state == AppState::MainMenu {
        after == (TuiApp { should_quit: true, ..before })
    } else {
        after == (TuiApp { app_state: AppState::MainMenu, ..before })
    }
}

/// Whether `after` is `before` with the menu selection one up, if it is
/// not at the top.
pub open spec fn menu_up(before: TuiApp, after: TuiApp) -> bool {
    after == (TuiApp {
        menu_selection: if before.menu_selection > 0 {
            (before.menu_selection - 1) as usize
        } else {
            0
        },
        ..before
    })
}

/// Whether `after` is `before` with the menu selection one down.
pub open spec fn menu_down(before: TuiApp, after: TuiApp) -> bool {
    after == (TuiApp { menu_selection: (before.menu_selection + 1) as usize, ..before })
}

/// Whether a character has a plain meaning in normal mode.
pub open spec fn is_plain_command(c: char) -> bool {
    c == 'i' || c == ':' || c == '/' || c == '1' || c == '2' || c == '3' || c == '4' || c == 'd'
        || c == 'h' || c == 'a' || c == 's' || c == 'x' || c == 'g'
}

/// What a character with a plain meaning does in normal mode: it switches
/// the mode, the tab or the screen.
pub open spec fn plain_char_done(before: TuiApp, after: TuiApp, c: char) -> bool {
    if c == 'i' {
        after == (TuiApp { input_mode: InputMode::Insert, ..before })
    } else if c == ':' {
        &&& after == (TuiApp {
            input_mode: InputMode::Command,
            command_buffer: after.command_buffer,
            ..before
        })
        &&& after.command_buffer@.len() == 0
    } else if c == '/' {
        &&& after == (TuiApp {
            input_mode: InputMode::Search,
            search_buffer: after.search_buffer,
            ..before
        })
        &&& after.search_buffer@.len() == 0
    } else if c == '1' {
        after == (TuiApp { current_tab: Tab::Chat, ..before })
    } else if c == '2' {
        after == (TuiApp { current_tab: Tab::Network, ..before })
    } else if c == '3' {
        after == (TuiApp { current_tab: Tab::Config, ..before })
    } else if c == '4' {
        after == (TuiApp { current_tab: Tab::Logs, ..before })
    } else if c == 'd' {
        after == (TuiApp { app_state: AppState::Dashboard, ..before })
    } else if c == 'h' {
        after == (TuiApp { app_state: AppState::Help, ..before })
    } else if c == 'a' {
        after == (TuiApp { app_state: AppState::About, ..before })
    } else if c == 's' {
        after == (TuiApp { app_state: AppState::Security, ..before })
    } else if c == 'x' {
        after == (TuiApp { app_state: AppState::Advanced, ..before })
    } else if c == 'g' {
        after == (TuiApp { app_state: AppState::Diagnostics, ..before })
    } else {
        after == before
    }
}

/// The request that a character asks for when pressed with the control
/// key in normal mode, if it asks for one.
pub open spec fn control_request(c: char, connected: bool) -> Option<RequestModel> {
    if c == 'c' {
        Some(
            if connected {
                RequestModel::DisconnectNetwork
            } else {
                RequestModel::ConnectNetwork
            },
        )
    } else if c == 'r' {
        Some(RequestModel::RefreshPeers)
    } else if c == 'e' {
        Some(RequestModel::EmergencyMode)
    } else if c == 'p' {
        Some(RequestModel::PanicMode)
    } else if c == 't' {
        Some(RequestModel::StealthMode)
    } else if c == '5' {
        Some(RequestModel::SystemDiagnostics)
    } else if c == '6' {
        Some(RequestModel::NetworkDiagnostics)
    } else if c == '7' {
        Some(RequestModel::SecurityAudit)
    } else if c == '8' {
        Some(RequestModel::PerformanceTest)
    } else if c == '9' {
        Some(RequestModel::BackupSystem)
    } else if c == '0' {
        Some(RequestModel::UpdateFirmware)
    } else {
        None
    }
}

/// What a character does in normal mode. The plain meaning of a character
/// comes before its meaning with the control key, and `q` steps back where
/// neither applies.
pub open spec fn normal_char_done(before: TuiApp, after: TuiApp, c: char, control: bool) -> bool {
    if is_plain_command(c) {
        plain_char_done(before, after, c)
    } else if control && control_request(c, before.network_state.is_connected).is_some() {
        requested(
            before,
            after,
            control_request(c, before.network_state.is_connected).unwrap(),
        )
    } else if c == 'q' {
        stepped_back(before, after)
    } else {
        after == before
    }
}

/// What a key does in normal mode.
pub open spec fn normal_mode_done(before: TuiApp, after: TuiApp, key: KeyPress) -> bool {
    match key.code {
        Key::Char(c) => normal_char_done(before, after, c, key.control),
        Key::Tab => after == (TuiApp { current_tab: next_tab(before.current_tab), ..before }),
        Key::Up => menu_up(before, after),
        Key::Down => menu_down(before, after),
        Key::Enter => after == (TuiApp {
            app_state: if before.app_state == AppState::MainMenu {
                match menu_target(before.menu_selection) {
                    Some(target) => target,
                    None => before.app_state,
                }
            } else {
                before.app_state
            },
            ..before
        }),
        Key::Esc => stepped_back(before, after),
        _ => after == before,
    }
}

/// Adds `request` to the outbox.
pub(crate) fn request(app: &mut TuiApp, request: TuiMessage)
    ensures
        requested(*old(app), *final(app), request@),
{
    let ghost before = app.outbox@;
    app.outbox.push(request);
    proof {
        assert(requests(app.outbox@) =~= requests(before).push(request@));
    }
}

/// One step back: quit from the main menu, else show the main menu.
fn step_back(app: &mut TuiApp)
    ensures
        stepped_back(*old(app), *final(app)),
{
    if app.app_state == AppState::MainMenu {
        app.should_quit = true;
    } else {
        app.app_state = AppState::MainMenu;
    }
}

/// Whether `c` has a plain meaning in normal mode.
fn plain_command(c: char) -> (plain: bool)
    ensures
        plain == is_plain_command(c),
{
    c == 'i' || c == ':' || c == '/' || c == '1' || c == '2' || c == '3' || c == '4' || c == 'd'
        || c == 'h' || c == 'a' || c == 's' || c == 'x' || c == 'g'
}

/// Opens the tab `tab`.
fn open_tab(app: &mut TuiApp, tab: Tab)
    ensures
        *final(app) == (TuiApp { current_tab: tab, ..*old(app) }),
{
    app.current_tab = tab;
}

/// Shows the screen `screen`.
pub(crate) fn show_screen(app: &mut TuiApp, screen: AppState)
    ensures
        *final(app) == (TuiApp { app_state: screen, ..*old(app) }),
{
    app.app_state = screen;
}

/// Switches to command mode with an empty command line.
fn enter_command_mode(app: &mut TuiApp)
    ensures
        *final(app) == (TuiApp {
            input_mode: InputMode::Command,
            command_buffer: final(app).command_buffer,
            ..*old(app)
        }),
        final(app).command_buffer@.len() == 0,
{
    app.input_mode = InputMode::Command;
    app.command_buffer = String::new();
}

/// Switches to search mode with an empty search line.
fn enter_search_mode(app: &mut TuiApp)
    ensures
        *final(app) == (TuiApp {
            input_mode: InputMode::Search,
            search_buffer: final(app).search_buffer,
            ..*old(app)
        }),
        final(app).search_buffer@.len() == 0,
{
    app.input_mode = InputMode::Search;
    app.search_buffer = String::new();
}

/// Switches to the input mode `mode`.
pub(crate) fn enter_mode(app: &mut TuiApp, mode: InputMode)
    ensures
        *final(app) == (TuiApp { input_mode: mode, ..*old(app) }),
{
    app.input_mode = mode;
}

/// Takes a character with a plain meaning in normal mode.
fn handle_plain_char(app: &mut TuiApp, c: char)
    ensures
        plain_char_done(*old(app), *final(app), c),
{
    if c == 'i' {
        enter_mode(app, InputMode::Insert);
    } else if c == ':' {
        enter_command_mode(app);
    } else if c == '/' {
        enter_search_mode(app);
    } else if c == '1' {
        open_tab(app, Tab::Chat);
    } else if c == '2' {
        open_tab(app, Tab::Network);
    } else if c == '3' {
        open_tab(app, Tab::Config);
    } else if c == '4' {
        open_tab(app, Tab::Logs);
    } else if c == 'd' {
        show_screen(app, AppState::Dashboard);
    } else if c == 'h' {
        show_screen(app, AppState::Help);
    } else if c == 'a' {
        show_screen(app, AppState::About);
    } else if c == 's' {
        show_screen(app, AppState::Security);
    } else if c == 'x' {
        show_screen(app, AppState::Advanced);
    } else if c == 'g' {
        show_screen(app, AppState::Diagnostics);
    }
}

/// The request that `c` asks for when pressed with the control key.
fn request_of(c: char, connected: bool) -> (asked: Option<TuiMessage>)
    ensures
        match asked {
            Some(message) => control_request(c, connected) == Some(message@),
            None => control_request(c, connected).is_none(),
        },
{
    if c == 'c' {
        if connected {
            Some(TuiMessage::DisconnectNetwork)
        } else {
            Some(TuiMessage::ConnectNetwork)
        }
    } else if c == 'r' {
        Some(TuiMessage::RefreshPeers)
    } else if c == 'e' {
        Some(TuiMessage::EmergencyMode)
    } else if c == 'p' {
        Some(TuiMessage::PanicMode)
    } else if c == 't' {
        Some(TuiMessage::StealthMode)
    } else if c == '5' {
        Some(TuiMessage::SystemDiagnostics)
    } else if c == '6' {
        Some(TuiMessage::NetworkDiagnostics)
    } else if c == '7' {
        Some(TuiMessage::SecurityAudit)
    } else if c == '8' {
        Some(TuiMessage::PerformanceTest)
    } else if c == '9' {
        Some(TuiMessage::BackupSystem)
    } else if c == '0' {
        Some(TuiMessage::UpdateFirmware)
    } else {
        None
    }
}

/// Takes a character in normal mode.
fn handle_normal_char(app: &mut TuiApp, c: char, control: bool)
    ensures
        normal_char_done(*old(app), *final(app), c, control),
{
    if plain_command(c) {
        handle_plain_char(app, c);
        return ;
    }
    if control {
        match request_of(c, app.network_state.is_connected) {
            Some(message) => {
                request(app, message);
                return ;
            },
            None => {},
        }
    }
    if c == 'q' {
        step_back(app);
    }
}

/// The main menu opens the screen of the selected entry; on other screens
/// nothing happens.
fn open_selection(app: &mut TuiApp)
    ensures
        *final(app) == (TuiApp {
            app_state: if old(app).app_state == AppState::MainMenu {
                match menu_target(old(app).menu_selection) {
                    Some(target) => target,
                    None => old(app).app_state,
                }
            } else {
                old(app).app_state
            },
            ..*old(app)
        }),
{
    if app.app_state == AppState::MainMenu {
        let selection = app.menu_selection;
        if selection == 0 {
            show_screen(app, AppState::Dashboard);
        } else if selection == 1 {
            show_screen(app, AppState::Chat);
        } else if selection == 2 {
            show_screen(app, AppState::Network);
        } else if selection == 3 {
            show_screen(app, AppState::Security);
        } else if selection == 4 {
            show_screen(app, AppState::Advanced);
        } else if selection == 5 {
            show_screen(app, AppState::Diagnostics);
        } else if selection == 6 {
            show_screen(app, AppState::Settings);
        } else if selection == 7 {
            show_screen(app, AppState::About);
        } else if selection == 8 {
            show_screen(app, AppState::Help);
        }
    }
}

/// Takes a key in normal mode: switches modes, tabs and screens, asks for
/// actions, moves in the menu, or steps back.
pub fn handle_normal_mode(app: &mut TuiApp, key: KeyPress)
    requires
        old(app).menu_selection < usize::MAX,
    ensures
        normal_mode_done(*old(app), *final(app), key),
{
    match key.code {
        Key::Char(c) => {
            handle_normal_char(app, c, key.control);
        },
        Key::Tab => {
            app.current_tab = match app.current_tab {
                Tab::Chat => Tab::Network,
                Tab::Network => Tab::Config,
                Tab::Config => Tab::Logs,
                Tab::Logs => Tab::Chat,
            };
        },
        Key::Up => {
            if app.menu_selection > 0 {
                app.menu_selection = app.menu_selection - 1;
            }
        },
        Key::Down => {
            app.menu_selection = app.menu_selection + 1;
        },
        Key::Enter => {
            open_selection(app);
        },
        Key::Esc => {
            step_back(app);
        },
        _ => {},
    }
}

/// Whether the notice of `app` is `text`, shown from `now`.
pub open spec fn notice_is(app: TuiApp, text: Seq<char>, now: Timestamp) -> bool {
    &&& app.notification.is_some()
    &&& app.notification.unwrap().0@ == text
    &&& app.notification.unwrap().1 == now
}

/// Whether `after` is `before` with the notice `text`, shown from `now`.
pub open spec fn noticed(before: TuiApp, after: TuiApp, text: Seq<char>, now: Timestamp) -> bool {
    &&& after == (TuiApp { notification: after.notification, ..before })
    &&& notice_is(after, text, now)
}

/// Puts up the notice `text`.
pub(crate) fn notify(app: &mut TuiApp, text: &str, now: Timestamp)
    ensures
        noticed(*old(app), *final(app), text@, now),
{
    app.notification = Some((text.to_owned(), now));
}

/// The request that a word of the command line asks for, with the notice
/// that confirms it.
pub open spec fn named_request(word: Seq<char>) -> Option<(RequestModel, Seq<char>)> {
    if word == "scan"@ {
        Some((RequestModel::ScanNetwork, "Network scan initiated"@))
    } else if word == "connect"@ {
        Some((RequestModel::ConnectNetwork, "Connecting to network..."@))
    } else if word == "disconnect"@ {
        Some((RequestModel::DisconnectNetwork, "Disconnecting from network..."@))
    } else if word == "refresh"@ {
        Some((RequestModel::RefreshPeers, "Refreshing peer list..."@))
    } else if word == "export"@ {
        Some((RequestModel::ExportKeys, "Exporting keys..."@))
    } else if word == "stealth"@ {
        Some((RequestModel::StealthMode, "Stealth mode activated"@))
    } else if word == "panic"@ {
        Some((RequestModel::PanicMode, "PANIC MODE ACTIVATED"@))
    } else if word == "emergency"@ {
        Some((RequestModel::EmergencyMode, "EMERGENCY MODE ACTIVATED"@))
    } else if word == "backup"@ {
        Some((RequestModel::BackupSystem, "System backup initiated"@))
    } else if word == "diagnostics"@ {
        Some((RequestModel::SystemDiagnostics, "Running system diagnostics..."@))
    } else if word == "audit"@ {
        Some((RequestModel::SecurityAudit, "Security audit initiated"@))
    } else {
        None
    }
}

/// The request that `word` asks for, with the notice that confirms it.
fn request_named(word: &str) -> (asked: Option<(TuiMessage, &'static str)>)
    ensures
        match asked {
            Some((message, notice)) => named_request(word@) == Some((message@, notice@)),
            None => named_request(word@).is_none(),
        },
{
    if same_text(word, "scan") {
        Some((TuiMessage::ScanNetwork, "Network scan initiated"))
    } else if same_text(word, "connect") {
        Some((TuiMessage::ConnectNetwork, "Connecting to network..."))
    } else if same_text(word, "disconnect") {
        Some((TuiMessage::DisconnectNetwork, "Disconnecting from network..."))
    } else if same_text(word, "refresh") {
        Some((TuiMessage::RefreshPeers, "Refreshing peer list..."))
    } else if same_text(word, "export") {
        Some((TuiMessage::ExportKeys, "Exporting keys..."))
    } else if same_text(word, "stealth") {
        Some((TuiMessage::StealthMode, "Stealth mode activated"))
    } else if same_text(word, "panic") {
        Some((TuiMessage::PanicMode, "PANIC MODE ACTIVATED"))
    } else if same_text(word, "emergency") {
        Some((TuiMessage::EmergencyMode, "EMERGENCY MODE ACTIVATED"))
    } else if same_text(word, "backup") {
        Some((TuiMessage::BackupSystem, "System backup initiated"))
    } else if same_text(word, "diagnostics") {
        Some((TuiMessage::SystemDiagnostics, "Running system diagnostics..."))
    } else if same_text(word, "audit") {
        Some((TuiMessage::SecurityAudit, "Security audit initiated"))
    } else {
        None
    }
}

/// Whether `after` is what the command with the words `words` makes of
/// `before` at `now`. The first word names the command: one that asks for
/// an action puts the request into the outbox and a notice up; `help` shows
/// the help; `quit` and `q` ask to quit; any other word puts up the notice
/// that it is unknown. No word, no change.
pub open spec fn command_executed(
    before: TuiApp,
    after: TuiApp,
    words: Seq<Seq<char>>,
    now: Timestamp,
) -> bool {
    if words.len() == 0 {
        after == before
    } else {
        match named_request(words[0]) {
            Some((request, notice)) => {
                &&& after == (TuiApp {
                    outbox: after.outbox,
                    notification: after.notification,
                    ..before
                })
                &&& requests(after.outbox@) == requests(before.outbox@).push(request)
                &&& notice_is(after, notice, now)
            },
            None => if words[0] == "help"@ {
                after == (TuiApp { app_state: AppState::Help, ..before })
            } else if words[0] == "quit"@ || words[0] == "q"@ {
                after == (TuiApp { should_quit: true, ..before })
            } else {
                noticed(before, after, "Unknown command: "@ + words[0], now)
            },
        }
    }
}

/// Asks to quit.
pub(crate) fn ask_to_quit(app: &mut TuiApp)
    ensures
        *final(app) == (TuiApp { should_quit: true, ..*old(app) }),
{
    app.should_quit = true;
}

/// Does what the command with the words `words` asks for.
pub fn execute_words(app: &mut TuiApp, words: &Vec<String>, now: Timestamp)
    ensures
        command_executed(*old(app), *final(app), names(words@), now),
{
    if words.len() == 0 {
        return ;
    }
    let word = words[0].as_str();
    match request_named(word) {
        Some((message, notice)) => {
            request(app, message);
            notify(app, notice, now);
        },
        None => {
            if same_text(word, "help") {
                show_screen(app, AppState::Help);
            } else if same_text(word, "quit") || same_text(word, "q") {
                ask_to_quit(app);
            } else {
                let mut notice = "Unknown command: ".to_owned();
                notice.append(word);
                notify(app, notice.as_str(), now);
            }
        },
    }
}

/// Does what the line `command` asks for: the command of its words, which
/// whitespace separates.
pub fn execute_command(app: &mut TuiApp, command: &str, now: Timestamp)
    ensures
        command_executed(*old(app), *final(app), whitespace_split(command@), now),
{
    let words = split_whitespace(command);
    execute_words(app, &words, now);
}

/// Whether `after` is `before` with only its chat screen changed.
pub open spec fn only_chat_changed(before: TuiApp, after: TuiApp) -> bool {
    after == (TuiApp { chat_state: after.chat_state, ..before })
}

/// What a key does in insert mode. Escape leaves the mode. On the chat
/// screen the keys edit the input line, and Enter asks to send the line
/// and empties it, unless the line is empty or all blank. On other screens
/// the other keys do nothing.
pub open spec fn insert_mode_done(before: TuiApp, after: TuiApp, key: KeyPress) -> bool {
    match key.code {
        Key::Esc => after == (TuiApp { input_mode: InputMode::Normal, ..before }),
        Key::Enter => if before.app_state == AppState::Chat && trimmed(
            before.chat_state.input_buffer@,
        ).len() > 0 {
            &&& after == (TuiApp { chat_state: after.chat_state, outbox: after.outbox, ..before })
            &&& requests(after.outbox@) == requests(before.outbox@).push(
                RequestModel::SendMessage(before.chat_state.input_buffer@),
            )
            &&& input_cleared(before.chat_state, after.chat_state)
        } else {
            after == before
        },
        Key::Char(c) => if before.app_state == AppState::Chat {
            only_chat_changed(before, after) && typed(before.chat_state, after.chat_state, c)
        } else {
            after == before
        },
        Key::Backspace => if before.app_state == AppState::Chat {
            only_chat_changed(before, after) && deleted(before.chat_state, after.chat_state)
        } else {
            after == before
        },
        Key::Left => if before.app_state == AppState::Chat {
            only_chat_changed(before, after) && moved_left(before.chat_state, after.chat_state)
        } else {
            after == before
        },
        Key::Right => if before.app_state == AppState::Chat {
            only_chat_changed(before, after) && moved_right(before.chat_state, after.chat_state)
        } else {
            after == before
        },
        _ => after == before,
    }
}

/// Asks to send the input line of the chat screen and empties it, unless
/// the line is empty or all blank.
fn submit_chat_line(app: &mut TuiApp)
    requires
        old(app).app_state == AppState::Chat,
    ensures
        insert_mode_done(*old(app), *final(app), KeyPress { code: Key::Enter, control: false }),
{
    let message = app.chat_state.get_input();
    if !trim(message.as_str()).is_empty() {
        request(app, TuiMessage::SendMessage(message));
        app.chat_state.clear_input();
    }
}

/// Takes a key in insert mode.
pub fn handle_insert_mode(app: &mut TuiApp, key: KeyPress)
    requires
        old(app).chat_state.cursor_position < usize::MAX,
    ensures
        insert_mode_done(*old(app), *final(app), key),
{
    match key.code {
        Key::Esc => {
            enter_mode(app, InputMode::Normal);
        },
        Key::Enter => {
            if app.app_state == AppState::Chat {
                submit_chat_line(app);
            }
        },
        Key::Char(c) => {
            if app.app_state == AppState::Chat {
                app.chat_state.add_input_char(c);
            }
        },
        Key::Backspace => {
            if app.app_state == AppState::Chat {
                app.chat_state.delete_char();
            }
        },
        Key::Left => {
            if app.app_state == AppState::Chat {
                app.chat_state.move_cursor_left();
            }
        },
        Key::Right => {
            if app.app_state == AppState::Chat {
                app.chat_state.move_cursor_right();
            }
        },
        _ => {},
    }
}

/// Whether `after` is `before` with the command line `text`.
pub open spec fn command_line_is(before: TuiApp, after: TuiApp, text: Seq<char>) -> bool {
    &&& after == (TuiApp { command_buffer: after.command_buffer, ..before })
    &&& after.command_buffer@ == text
}

/// Whether `after` is `before` with the search line `text`.
pub open spec fn search_line_is(before: TuiApp, after: TuiApp, text: Seq<char>) -> bool {
    &&& after == (TuiApp { search_buffer: after.search_buffer, ..before })
    &&& after.search_buffer@ == text
}

/// A text without its last character, if it has one.
pub open spec fn shortened(text: Seq<char>) -> Seq<char> {
    if text.len() > 0 {
        text.drop_last()
    } else {
        text
    }
}

/// Whether `after` is `before` back in normal mode with an empty command
/// line.
pub open spec fn command_line_left(before: TuiApp, after: TuiApp) -> bool {
    &&& after == (TuiApp {
        command_buffer: after.command_buffer,
        input_mode: InputMode::Normal,
        ..before
    })
    &&& after.command_buffer@.len() == 0
}

/// Whether `after` is `before` back in normal mode with an empty search
/// line.
pub open spec fn search_line_left(before: TuiApp, after: TuiApp) -> bool {
    &&& after == (TuiApp {
        search_buffer: after.search_buffer,
        input_mode: InputMode::Normal,
        ..before
    })
    &&& after.search_buffer@.len() == 0
}

/// What a key does in command mode, by way of `between`: a character
/// extends the command line, Backspace shortens it, Enter executes it and
/// Escape drops it, both back to normal mode.
pub open spec fn command_mode_done(
    before: TuiApp,
    between: TuiApp,
    after: TuiApp,
    key: KeyPress,
    now: Timestamp,
) -> bool {
    match key.code {
        Key::Char(c) => command_line_is(before, after, before.command_buffer@.push(c)),
        Key::Backspace => command_line_is(before, after, shortened(before.command_buffer@)),
        Key::Enter => {
            &&& command_executed(before, between, whitespace_split(before.command_buffer@), now)
            &&& command_line_left(between, after)
        },
        Key::Esc => command_line_left(before, after),
        _ => after == before,
    }
}

/// Leaves command mode with an empty command line.
fn leave_command_line(app: &mut TuiApp)
    ensures
        command_line_left(*old(app), *final(app)),
{
    app.command_buffer = String::new();
    app.input_mode = InputMode::Normal;
}

/// Leaves search mode with an empty search line.
fn leave_search_line(app: &mut TuiApp)
    ensures
        search_line_left(*old(app), *final(app)),
{
    app.search_buffer = String::new();
    app.input_mode = InputMode::Normal;
}

/// Takes a key in command mode.
pub fn handle_command_mode(app: &mut TuiApp, key: KeyPress, now: Timestamp)
    ensures
        exists|between: TuiApp| #[trigger]
            command_mode_done(*old(app), between, *final(app), key, now),
{
    match key.code {
        Key::Char(c) => {
            push_char(&mut app.command_buffer, c);
            proof {
                assert(command_mode_done(*old(app), *app, *app, key, now));
            }
        },
        Key::Backspace => {
            app.command_buffer = without_last(app.command_buffer.as_str());
            proof {
                assert(command_mode_done(*old(app), *app, *app, key, now));
            }
        },
        Key::Enter => {
            let command = app.command_buffer.clone();
            execute_command(app, command.as_str(), now);
            let ghost between = *app;
            leave_command_line(app);
            proof {
                assert(command_mode_done(*old(app), between, *app, key, now));
            }
        },
        Key::Esc => {
            leave_command_line(app);
            proof {
                assert(command_mode_done(*old(app), *app, *app, key, now));
            }
        },
        _ => {
            proof {
                assert(command_mode_done(*old(app), *app, *app, key, now));
            }
        },
    }
}

/// Whether `after` is `before` with the search term `term` for the logs.
pub open spec fn search_applied(before: TuiApp, after: TuiApp, term: Seq<char>) -> bool {
    &&& after == (TuiApp { logs_state: after.logs_state, ..before })
    &&& after.logs_state == (LogsState {
        search_term: after.logs_state.search_term,
        ..before.logs_state
    })
    &&& after.logs_state.search_term@ == term
}

/// What a key does in search mode, by way of `between`: a character
/// extends the search line, Backspace shortens it, Enter makes it the
/// search term of the logs and Escape drops it, both back to normal mode.
pub open spec fn search_mode_done(
    before: TuiApp,
    between: TuiApp,
    after: TuiApp,
    key: KeyPress,
) -> bool {
    match key.code {
        Key::Char(c) => search_line_is(before, after, before.search_buffer@.push(c)),
        Key::Backspace => search_line_is(before, after, shortened(before.search_buffer@)),
        Key::Enter => {
            &&& search_applied(before, between, before.search_buffer@)
            &&& search_line_left(between, after)
        },
        Key::Esc => search_line_left(before, after),
        _ => after == before,
    }
}

/// Takes a key in search mode.
pub fn handle_search_mode(app: &mut TuiApp, key: KeyPress)
    ensures
        exists|between: TuiApp| #[trigger] search_mode_done(*old(app), between, *final(app), key),
{
    match key.code {
        Key::Char(c) => {
            push_char(&mut app.search_buffer, c);
            proof {
                assert(search_mode_done(*old(app), *app, *app, key));
            }
        },
        Key::Backspace => {
            app.search_buffer = without_last(app.search_buffer.as_str());
            proof {
                assert(search_mode_done(*old(app), *app, *app, key));
            }
        },
        Key::Enter => {
            let term = app.search_buffer.clone();
            app.logs_state.set_search_term(term);
            let ghost between = *app;
            leave_search_line(app);
            proof {
                assert(search_mode_done(*old(app), between, *app, key));
            }
        },
        Key::Esc => {
            leave_search_line(app);
            proof {
                assert(search_mode_done(*old(app), *app, *app, key));
            }
        },
        _ => {
            proof {
                assert(search_mode_done(*old(app), *app, *app, key));
            }
        },
    }
}

/// What a key does in menu mode: Up and Down move the selection, Enter and
/// Escape go back to normal mode.
pub open spec fn menu_mode_done(before: TuiApp, after: TuiApp, key: KeyPress) -> bool {
    match key.code {
        Key::Up => menu_up(before, after),
        Key::Down => menu_down(before, after),
        Key::Enter => after == (TuiApp { input_mode: InputMode::Normal, ..before }),
        Key::Esc => after == (TuiApp { input_mode: InputMode::Normal, ..before }),
        _ => after == before,
    }
}

/// Takes a key in menu mode.
pub fn handle_menu_mode(app: &mut TuiApp, key: KeyPress)
    requires
        old(app).menu_selection < usize::MAX,
    ensures
        menu_mode_done(*old(app), *final(app), key),
{
    match key.code {
        Key::Up => {
            if app.menu_selection > 0 {
                app.menu_selection = app.menu_selection - 1;
            }
        },
        Key::Down => {
            app.menu_selection = app.menu_selection + 1;
        },
        Key::Enter => {
            enter_mode(app, InputMode::Normal);
        },
        Key::Esc => {
            enter_mode(app, InputMode::Normal);
        },
        _ => {},
    }
}

/// What a key does, by way of `between`: what it does in the input mode
/// that the front end is in.
pub open spec fn input_done(
    before: TuiApp,
    between: TuiApp,
    after: TuiApp,
    key: KeyPress,
    now: Timestamp,
) -> bool {
    match before.input_mode {
        InputMode::Normal => normal_mode_done(before, after, key),
        InputMode::Insert => insert_mode_done(before, after, key),
        InputMode::Command => command_mode_done(before, between, after, key, now),
        InputMode::Search => search_mode_done(before, between, after, key),
        InputMode::Menu => menu_mode_done(before, after, key),
    }
}

/// Takes a key, as the input mode calls for.
pub fn handle_input(app: &mut TuiApp, key: KeyPress, now: Timestamp)
    requires
        old(app).menu_selection < usize::MAX,
        old(app).chat_state.cursor_position < usize::MAX,
    ensures
        exists|between: TuiApp| #[trigger] input_done(*old(app), between, *final(app), key, now),
{
    match app.input_mode {
        InputMode::Normal => {
            handle_normal_mode(app, key);
            proof {
                assert(input_done(*old(app), *app, *app, key, now));
            }
        },
        InputMode::Insert => {
            handle_insert_mode(app, key);
            proof {
                assert(input_done(*old(app), *app, *app, key, now));
            }
        },
        InputMode::Command => {
            handle_command_mode(app, key, now);
            proof {
                let between = choose|between: TuiApp| #[trigger]
                    command_mode_done(*old(app), between, *app, key, now);
                assert(input_done(*old(app), between, *app, key, now));
            }
        },
        InputMode::Search => {
            handle_search_mode(app, key);
            proof {
                let between = choose|between: TuiApp| #[trigger]
                    search_mode_done(*old(app), between, *app, key);
                assert(input_done(*old(app), between, *app, key, now));
            }
        },
        InputMode::Menu => {
            handle_menu_mode(app, key);
            proof {
                assert(input_done(*old(app), *app, *app, key, now));
            }
        },
    }
}

/// The status line of the network: the counts of peers and messages, and
/// whether the network is connected.
pub open spec fn network_status_text(app: TuiApp) -> Seq<char> {
    "Peers: "@ + decimal_text(app.network_state.peer_count as nat) + " | Messages: "@
        + decimal_text(app.network_state.message_count as nat) + " | Status: "@ + if app.network_state.is_connected {
        "CONNECTED"@
    } else {
        "DISCONNECTED"@
    }
}

/// The status line of the network.
pub fn get_network_status(app: &TuiApp) -> (status: String)
    ensures
        status@ == network_status_text(*app),
{
    let mut status = "Peers: ".to_owned();
    status.append(number_text(app.network_state.peer_count).as_str());
    status.append(" | Messages: ");
    status.append(number_text(app.network_state.message_count).as_str());
    status.append(" | Status: ");
    if app.network_state.is_connected {
        status.append("CONNECTED");
    } else {
        status.append("DISCONNECTED");
    }
    status
}

} // verus!
