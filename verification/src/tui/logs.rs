//! The log screen: a bounded list of entries, its filters, and its exports.

use std::collections::VecDeque;
use vstd::prelude::*;
use vstd::string::StringExecFns;
use crate::text::{
    contains_text, is_substring, join_from, joined, lowercase, lowercased, same_text,
};
use crate::timestamp::Timestamp;
use crate::tui::input::{enter_mode, notice_is, notify};
use crate::tui::{InputMode, Key, KeyPress, TuiApp};

verus! {

/// Severity of a log entry, from `Debug` up to `Critical`.
#[derive(Debug, Clone, Copy, PartialEq, Eq, Structural)]
pub enum LogLevel {
    Debug,
    Info,
    Warning,
    Error,
    Critical,
}

/// The part of the system that a log entry comes from.
#[derive(Debug, Clone, Copy, PartialEq, Eq, Structural)]
pub enum LogSource {
    System,
    Network,
    Security,
    Encryption,
    Mesh,
    User,
    External,
}

impl LogLevel {
    /// Position of the level in the order, `Debug` being 0.
    pub open spec fn rank(self) -> nat {
        match self {
            LogLevel::Debug => 0,
            LogLevel::Info => 1,
            LogLevel::Warning => 2,
            LogLevel::Error => 3,
            LogLevel::Critical => 4,
        }
    }

    /// The name of the level.
    pub open spec fn label(self) -> Seq<char> {
        match self {
            LogLevel::Debug => "Debug"@,
            LogLevel::Info => "Info"@,
            LogLevel::Warning => "Warning"@,
            LogLevel::Error => "Error"@,
            LogLevel::Critical => "Critical"@,
        }
    }

    /// Position of the level in the order, `Debug` being 0.
    pub fn severity(&self) -> (r: u8)
        ensures
            r as nat == self.rank(),
    {
        match self {
            LogLevel::Debug => 0,
            LogLevel::Info => 1,
            LogLevel::Warning => 2,
            LogLevel::Error => 3,
            LogLevel::Critical => 4,
        }
    }

    /// The name of the level.
    pub fn name(&self) -> (text: &'static str)
        ensures
            text@ == self.label(),
    {
        match self {
            LogLevel::Debug => "Debug",
            LogLevel::Info => "Info",
            LogLevel::Warning => "Warning",
            LogLevel::Error => "Error",
            LogLevel::Critical => "Critical",
        }
    }
}

impl LogSource {
    /// The name of the source.
    pub open spec fn label(self) -> Seq<char> {
        match self {
            LogSource::System => "System"@,
            LogSource::Network => "Network"@,
            LogSource::Security => "Security"@,
            LogSource::Encryption => "Encryption"@,
            LogSource::Mesh => "Mesh"@,
            LogSource::User => "User"@,
            LogSource::External => "External"@,
        }
    }

    /// The name of the source.
    pub fn name(&self) -> (text: &'static str)
        ensures
            text@ == self.label(),
    {
        match self {
            LogSource::System => "System",
            LogSource::Network => "Network",
            LogSource::Security => "Security",
            LogSource::Encryption => "Encryption",
            LogSource::Mesh => "Mesh",
            LogSource::User => "User",
            LogSource::External => "External",
        }
    }
}

/// One entry of the log.
#[derive(Debug, Clone)]
pub struct LogEntry {
    pub timestamp: Timestamp,
    pub level: LogLevel,
    pub module: String,
    pub message: String,
    pub details: Option<String>,
    pub source: LogSource,
}

/// The state of the log screen.
pub struct LogsState {
    /// The entries, oldest first.
    pub entries: VecDeque<LogEntry>,
    pub max_entries: usize,
    pub filter_level: LogLevel,
    pub filter_module: Option<String>,
    pub auto_scroll: bool,
    pub search_term: String,
    pub selected_entry: Option<usize>,
}

/// The entries after one more: the new entry at the end, and the oldest one
/// dropped if the list has then more than `max_entries`.
pub open spec fn with_entry(entries: Seq<LogEntry>, entry: LogEntry, max_entries: nat) -> Seq<LogEntry> {
    let all = entries.push(entry);
    if all.len() > max_entries {
        all.skip(1)
    } else {
        all
    }
}

/// Whether an entry has the given level, texts and source, and no details.
pub open spec fn entry_is(
    entry: LogEntry,
    level: LogLevel,
    module: Seq<char>,
    message: Seq<char>,
    details: Option<Seq<char>>,
    source: LogSource,
) -> bool {
    &&& entry.level == level
    &&& entry.module@ == module
    &&& entry.message@ == message
    &&& crate::text::text_of(entry.details) == details
    &&& entry.source == source
}

/// The line of an entry in the JSON export.
pub open spec fn json_line(entry: LogEntry) -> Seq<char> {
    "{\"timestamp\":\""@ + entry.timestamp.display_text() + "\",\"level\":\""@ + entry.level.label()
        + "\",\"module\":\""@ + entry.module@ + "\",\"message\":\""@ + entry.message@ + "\"}"@
}

/// The line of an entry in the CSV export, with its line end.
pub open spec fn csv_line(entry: LogEntry) -> Seq<char> {
    entry.timestamp.display_text() + ","@ + entry.level.label() + ","@ + entry.module@ + ","@
        + entry.message@ + ","@ + entry.source.label() + "\n"@
}

/// The line of an entry in the text export.
pub open spec fn text_line(entry: LogEntry) -> Seq<char> {
    "["@ + entry.timestamp.date_time_text() + "] "@ + entry.level.label() + " "@ + entry.module@
        + ": "@ + entry.message@
}

/// The lines of a CSV export one after the other.
pub open spec fn csv_lines(entries: Seq<LogEntry>) -> Seq<char>
    decreases entries.len(),
{
    if entries.len() == 0 {
        Seq::empty()
    } else {
        csv_lines(entries.drop_last()) + csv_line(entries.last())
    }
}

impl LogsState {
    /// Whether the level filter lets `level` through: it is at least the
    /// level of the filter.
    pub open spec fn level_passes(self, level: LogLevel) -> bool {
        level.rank() >= self.filter_level.rank()
    }

    /// Whether the filters let `entry` through: its level is at least that
    /// of the level filter; its module is that of the module filter, if one
    /// is set; and its message holds the search term, if one is set, where
    /// case does not count.
    pub open spec fn shows(self, entry: LogEntry) -> bool {
        &&& self.level_passes(entry.level)
        &&& match self.filter_module {
            Some(module) => entry.module@ == module@,
            None => true,
        }
        &&& self.search_term@.len() == 0 || is_substring(
            lowercased(self.search_term@),
            lowercased(entry.message@),
        )
    }

    /// The JSON export: the lines of all entries in brackets.
    pub open spec fn json_text(self) -> Seq<char> {
        "[\n"@ + joined(self.entries@.map_values(|entry: LogEntry| json_line(entry)), ",\n"@)
            + "\n]"@
    }

    /// The CSV export: the header and the lines of all entries.
    pub open spec fn csv_text(self) -> Seq<char> {
        "timestamp,level,module,message,source\n"@ + csv_lines(self.entries@)
    }

    /// The text export: the lines of all entries, one per line.
    pub open spec fn plain_text(self) -> Seq<char> {
        joined(self.entries@.map_values(|entry: LogEntry| text_line(entry)), "\n"@)
    }

    /// An empty log screen that keeps 1000 entries and shows those from
    /// `Info` up.
    pub fn empty() -> (state: Self)
        ensures
            state.entries@.len() == 0,
            state.max_entries == 1000,
            state.filter_level == LogLevel::Info,
            state.filter_module.is_none(),
            state.auto_scroll,
            state.search_term@.len() == 0,
            state.selected_entry.is_none(),
    {
        LogsState {
            entries: VecDeque::new(),
            max_entries: 1000,
            filter_level: LogLevel::Info,
            filter_module: None,
            auto_scroll: true,
            search_term: String::new(),
            selected_entry: None,
        }
    }

    /// Whether `state` is the log screen as it opens at `now`: five entries
    /// that report the start of the system, all of that time.
    pub open spec fn opens_at(state: LogsState, now: Timestamp) -> bool {
        &&& state.max_entries == 1000
        &&& state.filter_level == LogLevel::Info
        &&& state.filter_module.is_none()
        &&& state.auto_scroll
        &&& state.search_term@.len() == 0
        &&& state.selected_entry.is_none()
        &&& state.entries@.len() == 5
        &&& forall|i: int| 0 <= i < 5 ==> (#[trigger] state.entries@[i]).timestamp == now
        &&& entry_is(
            state.entries@[0],
            LogLevel::Info,
            "System"@,
            "GhostWire TUI initialized successfully"@,
            None,
            LogSource::System
        )
        &&& entry_is(
            state.entries@[1],
            LogLevel::Info,
            "Network"@,
            "Mesh network ready for connections"@,
            None,
            LogSource::Network
        )
        &&& entry_is(
            state.entries@[2],
            LogLevel::Warning,
            "Security"@,
            "New peer detected - verification pending"@,
            Some("Peer ID: node1"@),
            LogSource::Security
        )
        &&& entry_is(
            state.entries@[3],
            LogLevel::Info,
            "Encryption"@,
            "Key rotation completed"@,
            None,
            LogSource::Encryption
        )
        &&& entry_is(
            state.entries@[4],
            LogLevel::Debug,
            "Mesh"@,
            "Topology update: 3 nodes connected"@,
            None,
            LogSource::Mesh
        )
    }

    /// The log screen as it opens at `now`.
    pub fn new(now: Timestamp) -> (state: Self)
        ensures
            Self::opens_at(state, now),
    {
        let mut logs = Self::empty();
        logs.add_entry(
            LogLevel::Info,
            "System",
            "GhostWire TUI initialized successfully",
            None,
            LogSource::System,
            now,
        );
        logs.add_entry(
            LogLevel::Info,
            "Network",
            "Mesh network ready for connections",
            None,
            LogSource::Network,
            now,
        );
        logs.add_entry(
            LogLevel::Warning,
            "Security",
            "New peer detected - verification pending",
            Some("Peer ID: node1"),
            LogSource::Security,
            now,
        );
        logs.add_entry(
            LogLevel::Info,
            "Encryption",
            "Key rotation completed",
            None,
            LogSource::Encryption,
            now,
        );
        logs.add_entry(
            LogLevel::Debug,
            "Mesh",
            "Topology update: 3 nodes connected",
            None,
            LogSource::Mesh,
            now,
        );
        logs
    }

    /// Appends an entry of time `now`. If the list has then more than
    /// `max_entries`, the oldest entry goes.
    pub fn add_entry(
        &mut self,
        level: LogLevel,
        module: &str,
        message: &str,
        details: Option<&str>,
        source: LogSource,
        now: Timestamp,
    )
        ensures
            *final(self) == (LogsState { entries: final(self).entries, ..*old(self) }),
            exists|entry: LogEntry|
                {
                    &&& entry.timestamp == now
                    &&& entry_is(
                        entry,
                        level,
                        module@,
                        message@,
                        match details {
                            Some(d) => Some(d@),
                            None => None,
                        },
                        source,
                    )
                    &&& final(self).entries@ == with_entry(
                        old(self).entries@,
                        entry,
                        old(self).max_entries as nat,
                    )
                },
    {
        let entry = LogEntry {
            timestamp: now,
            level,
            module: module.to_owned(),
            message: message.to_owned(),
            details: match details {
                Some(d) => Some(d.to_owned()),
                None => None,
            },
            source,
        };
        self.entries.push_back(entry);
        if self.entries.len() > self.max_entries {
            let _ = self.entries.pop_front();
        }
        proof {
            let all = old(self).entries@.push(entry);
            if all.len() > self.max_entries {
                assert(self.entries@ =~= all.skip(1));
            }
            assert(self.entries@ == with_entry(old(self).entries@, entry, old(self).max_entries as nat));
        }
    }

    /// Removes all entries.
    pub fn clear(&mut self)
        ensures
            *final(self) == (LogsState { entries: final(self).entries, ..*old(self) }),
            final(self).entries@.len() == 0,
    {
        self.entries.clear();
    }

    /// Shows the entries from `level` up.
    pub fn set_filter_level(&mut self, level: LogLevel)
        ensures
            *final(self) == (LogsState { filter_level: level, ..*old(self) }),
    {
        self.filter_level = level;
    }

    /// Shows the entries of `module` only, or of all modules.
    pub fn set_filter_module(&mut self, module: Option<String>)
        ensures
            *final(self) == (LogsState { filter_module: module, ..*old(self) }),
    {
        self.filter_module = module;
    }

    /// Switches the automatic scrolling over.
    pub fn toggle_auto_scroll(&mut self)
        ensures
            *final(self) == (LogsState { auto_scroll: !old(self).auto_scroll, ..*old(self) }),
    {
        self.auto_scroll = !self.auto_scroll;
    }

    /// Shows the entries whose message holds `term`, or all for an empty term.
    pub fn set_search_term(&mut self, term: String)
        ensures
            *final(self) == (LogsState { search_term: term, ..*old(self) }),
    {
        self.search_term = term;
    }

    /// Whether the level filter lets `entry` through.
    fn matches_level(&self, entry: &LogEntry) -> (passes: bool)
        ensures
            passes == self.level_passes(entry.level),
    {
        entry.level.severity() >= self.filter_level.severity()
    }

    /// Whether the filters let `entry` through.
    fn passes_filters(&self, entry: &LogEntry) -> (passes: bool)
        ensures
            passes == self.shows(*entry),
    {
        if !self.matches_level(entry) {
            return false;
        }
        match &self.filter_module {
            Some(module) => {
                if !same_text(entry.module.as_str(), module.as_str()) {
                    return false;
                }
            },
            None => {},
        }
        if !self.search_term.as_str().is_empty() {
            let message = lowercase(entry.message.as_str());
            let term = lowercase(self.search_term.as_str());
            if !contains_text(message.as_str(), term.as_str()) {
                return false;
            }
        }
        true
    }

    /// The entries that the filters let through, in their order.
    pub fn get_filtered_entries(&self) -> (shown: Vec<&LogEntry>)
        ensures
            shown@.map_values(|entry: &LogEntry| *entry) == self.entries@.filter(
                |entry: LogEntry| self.shows(entry),
            ),
    {
        let ghost keep = |entry: LogEntry| self.shows(entry);
        let mut shown: Vec<&LogEntry> = Vec::new();
        let mut i: usize = 0;
        proof {
            assert(self.entries@.take(0) =~= Seq::<LogEntry>::empty());
            assert(shown@.map_values(|entry: &LogEntry| *entry) =~= Seq::<LogEntry>::empty());
        }
        while i < self.entries.len()
            invariant
                i <= self.entries@.len(),
                keep == |entry: LogEntry| self.shows(entry),
                shown@.map_values(|entry: &LogEntry| *entry) == self.entries@.take(i as int).filter(
                    keep,
                ),
            decreases self.entries@.len() - i,
        {
            let ghost before = shown@;
            proof {
                let longer = self.entries@.take(i + 1);
                assert(longer.drop_last() =~= self.entries@.take(i as int));
                assert(longer.last() == self.entries@[i as int]);
                reveal(Seq::filter);
            }
            let entry = &self.entries[i];
            if self.passes_filters(entry) {
                shown.push(entry);
                proof {
                    assert(shown@.map_values(|entry: &LogEntry| *entry) =~= before.map_values(
                        |entry: &LogEntry| *entry,
                    ).push(*entry));
                }
            }
            i += 1;
        }
        proof {
            assert(self.entries@.take(self.entries@.len() as int) =~= self.entries@);
        }
        shown
    }

    /// The log as text in the format asked for: `json`, `csv`, or else plain
    /// text.
    pub fn export_logs(&self, format: &str) -> (text: String)
        ensures
            text@ == if format@ == "json"@ {
                self.json_text()
            } else if format@ == "csv"@ {
                self.csv_text()
            } else {
                self.plain_text()
            },
    {
        if same_text(format, "json") {
            self.export_json()
        } else if same_text(format, "csv") {
            self.export_csv()
        } else {
            self.export_text()
        }
    }

    fn export_json(&self) -> (text: String)
        ensures
            text@ == self.json_text(),
    {
        let ghost wanted = self.entries@.map_values(|entry: LogEntry| json_line(entry));
        let mut lines: Vec<String> = Vec::new();
        let mut i: usize = 0;
        while i < self.entries.len()
            invariant
                i <= self.entries@.len(),
                wanted == self.entries@.map_values(|entry: LogEntry| json_line(entry)),
                lines@.map_values(|line: String| line@) == wanted.take(i as int),
            decreases self.entries@.len() - i,
        {
            let ghost before = lines@;
            let entry = &self.entries[i];
            let mut line = "{\"timestamp\":\"".to_owned();
            line.append(entry.timestamp.display().as_str());
            line.append("\",\"level\":\"");
            line.append(entry.level.name());
            line.append("\",\"module\":\"");
            line.append(entry.module.as_str());
            line.append("\",\"message\":\"");
            line.append(entry.message.as_str());
            line.append("\"}");
            lines.push(line);
            proof {
                assert(line@ == json_line(*entry));
                assert(lines@.map_values(|line: String| line@) =~= before.map_values(
                    |line: String| line@,
                ).push(line@));
                assert(wanted.take(i + 1) =~= wanted.take(i as int).push(wanted[i as int]));
            }
            i += 1;
        }
        proof {
            assert(wanted.take(self.entries@.len() as int) =~= wanted);
            assert(lines@.skip(0) =~= lines@);
        }
        let mut text = "[\n".to_owned();
        text.append(join_from(&lines, 0, ",\n").as_str());
        text.append("\n]");
        text
    }

    fn export_csv(&self) -> (text: String)
        ensures
            text@ == self.csv_text(),
    {
        let mut text = "timestamp,level,module,message,source\n".to_owned();
        let mut i: usize = 0;
        proof {
            assert(self.entries@.take(0) =~= Seq::<LogEntry>::empty());
            assert(text@ =~= "timestamp,level,module,message,source\n"@ + csv_lines(
                self.entries@.take(0),
            ));
        }
        while i < self.entries.len()
            invariant
                i <= self.entries@.len(),
                text@ == "timestamp,level,module,message,source\n"@ + csv_lines(
                    self.entries@.take(i as int),
                ),
            decreases self.entries@.len() - i,
        {
            let entry = &self.entries[i];
            let mut line = entry.timestamp.display();
            line.append(",");
            line.append(entry.level.name());
            line.append(",");
            line.append(entry.module.as_str());
            line.append(",");
            line.append(entry.message.as_str());
            line.append(",");
            line.append(entry.source.name());
            line.append("\n");
            let ghost before = text@;
            text.append(line.as_str());
            proof {
                let longer = self.entries@.take(i + 1);
                assert(longer.drop_last() =~= self.entries@.take(i as int));
                assert(longer.last() == *entry);
                assert(line@ == csv_line(*entry));
                assert(text@ =~= "timestamp,level,module,message,source\n"@ + csv_lines(longer));
            }
            i += 1;
        }
        proof {
            assert(self.entries@.take(self.entries@.len() as int) =~= self.entries@);
        }
        text
    }

    fn export_text(&self) -> (text: String)
        ensures
            text@ == self.plain_text(),
    {
        let ghost wanted = self.entries@.map_values(|entry: LogEntry| text_line(entry));
        let mut lines: Vec<String> = Vec::new();
        let mut i: usize = 0;
        while i < self.entries.len()
            invariant
                i <= self.entries@.len(),
                wanted == self.entries@.map_values(|entry: LogEntry| text_line(entry)),
                lines@.map_values(|line: String| line@) == wanted.take(i as int),
            decreases self.entries@.len() - i,
        {
            let ghost before = lines@;
            let entry = &self.entries[i];
            let mut line = "[".to_owned();
            line.append(entry.timestamp.date_time().as_str());
            line.append("] ");
            line.append(entry.level.name());
            line.append(" ");
            line.append(entry.module.as_str());
            line.append(": ");
            line.append(entry.message.as_str());
            lines.push(line);
            proof {
                assert(line@ == text_line(*entry));
                assert(lines@.map_values(|line: String| line@) =~= before.map_values(
                    |line: String| line@,
                ).push(line@));
                assert(wanted.take(i + 1) =~= wanted.take(i as int).push(wanted[i as int]));
            }
            i += 1;
        }
        proof {
            assert(wanted.take(self.entries@.len() as int) =~= wanted);
            assert(lines@.skip(0) =~= lines@);
        }
        join_from(&lines, 0, "\n")
    }
}

/// Whether `after` is `before` with only its log screen changed.
pub open spec fn only_logs_changed(before: TuiApp, after: TuiApp) -> bool {
    after == (TuiApp { logs_state: after.logs_state, ..before })
}

/// What a key does on the log screen: `c` with the control key empties the
/// log, `e` confirms an export, `f` starts a search, `a` switches the
/// automatic scrolling over, and `r` logs a manual refresh.
pub open spec fn logs_input_done(before: TuiApp, after: TuiApp, key: KeyPress, now: Timestamp) -> bool {
    match key.code {
        Key::Char(c) => if c == 'c' && key.control {
            &&& only_logs_changed(before, after)
            &&& after.logs_state == (LogsState {
                entries: after.logs_state.entries,
                ..before.logs_state
            })
            &&& after.logs_state.entries@.len() == 0
        } else if c == 'e' {
            &&& after == (TuiApp { notification: after.notification, ..before })
            &&& notice_is(after, "Logs exported to logs.json"@, now)
        } else if c == 'f' {
            after == (TuiApp { input_mode: InputMode::Search, ..before })
        } else if c == 'a' {
            &&& only_logs_changed(before, after)
            &&& after.logs_state == (LogsState {
                auto_scroll: !before.logs_state.auto_scroll,
                ..before.logs_state
            })
        } else if c == 'r' {
            &&& only_logs_changed(before, after)
            &&& after.logs_state == (LogsState {
                entries: after.logs_state.entries,
                ..before.logs_state
            })
            &&& exists|entry: LogEntry|
                {
                    &&& entry.timestamp == now
                    &&& entry_is(
                        entry,
                        LogLevel::Info,
                        "User"@,
                        "Logs refreshed manually"@,
                        None,
                        LogSource::User,
                    )
                    &&& after.logs_state.entries@ == with_entry(
                        before.logs_state.entries@,
                        entry,
                        before.logs_state.max_entries as nat,
                    )
                }
        } else {
            after == before
        },
        _ => after == before,
    }
}

/// Takes a key on the log screen.
pub fn handle_input(app: &mut TuiApp, key: KeyPress, now: Timestamp)
    ensures
        logs_input_done(*old(app), *final(app), key, now),
{
    match key.code {
        Key::Char(c) => {
            if c == 'c' && key.control {
                app.logs_state.clear();
            } else if c == 'e' {
                notify(app, "Logs exported to logs.json", now);
            } else if c == 'f' {
                enter_mode(app, InputMode::Search);
            } else if c == 'a' {
                app.logs_state.toggle_auto_scroll();
            } else if c == 'r' {
                app.logs_state.add_entry(
                    LogLevel::Info,
                    "User",
                    "Logs refreshed manually",
                    None,
                    LogSource::User,
                    now,
                );
            }
        },
        _ => {},
    }
}

} // verus!
