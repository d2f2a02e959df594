//! The chat screen: channels, users, the message lists and the input line.

use std::collections::VecDeque;
use vstd::prelude::*;
use vstd::string::StringExecFns;
use crate::keyed::names;
use crate::message::{Message, MessageModel};
use crate::text::{
    position_of, push_char, same_text, starts_with_char, text_of, whitespace_split, without,
};
use crate::timestamp::Timestamp;
use crate::tui::input::only_chat_changed;
use crate::tui::irc::{command_done, command_of};
use crate::tui::{Key, KeyPress, RequestModel, TuiApp, TuiMessage, requests};

verus! {

/// How many messages the current view keeps.
pub const VIEW_CAPACITY: usize = 100;

/// How many messages the history keeps.
pub const HISTORY_CAPACITY: usize = 1000;

/// Whether a message was encrypted on its way.
#[derive(Debug, Clone, Copy, PartialEq, Eq, Structural)]
pub enum EncryptionStatus {
    Encrypted,
    Unencrypted,
    Error,
    Unknown,
}

/// What a chat message is, after the message kinds of IRC.
#[derive(Debug, Clone, Copy, PartialEq, Eq, Structural)]
pub enum MessageType {
    PrivMsg,
    Notice,
    Join,
    Part,
    Quit,
    Nick,
    Mode,
    Topic,
    Kick,
    Ban,
    System,
    Action,
    Ctcp,
}

/// What the server says of itself.
#[derive(Debug, Clone)]
pub struct ServerInfo {
    pub name: String,
    pub version: String,
    pub uptime: u64,
    pub user_count: usize,
    pub channel_count: usize,
    pub max_users: usize,
    pub motd: Vec<String>,
}

/// A message as the chat screen shows it.
#[derive(Debug, Clone)]
pub struct ChatMessage {
    pub message: Message,
    pub display_name: String,
    pub is_own: bool,
    pub encryption_status: EncryptionStatus,
    pub message_type: MessageType,
    pub timestamp: Timestamp,
    pub channel: Option<String>,
}

/// A channel of the chat.
#[derive(Debug, Clone)]
pub struct Channel {
    pub name: String,
    pub topic: String,
    pub user_count: usize,
    pub is_joined: bool,
    pub messages: VecDeque<ChatMessage>,
    /// Nicknames of the users in the channel.
    pub users: Vec<String>,
}

/// A user of the chat.
#[derive(Debug, Clone)]
pub struct User {
    pub nickname: String,
    pub username: String,
    pub hostname: String,
    pub realname: String,
    pub is_operator: bool,
    pub is_voice: bool,
    pub is_away: bool,
    pub away_message: Option<String>,
    pub last_seen: Timestamp,
    /// Names of the channels that the user is in.
    pub channels: Vec<String>,
}

/// The state of the chat screen.
#[derive(Debug, Clone)]
pub struct ChatState {
    /// The messages of the current view, oldest first.
    pub messages: VecDeque<ChatMessage>,
    pub input_buffer: String,
    /// Position of the cursor in the input line, counted in characters.
    pub cursor_position: usize,
    pub current_channel: String,
    pub nickname: String,
    pub channels: Vec<Channel>,
    pub users: Vec<User>,
    pub is_connected: bool,
    pub server_info: ServerInfo,
    /// The messages of the history, oldest first.
    pub message_history: VecDeque<ChatMessage>,
}

impl ChatMessage {
    /// A copy of the message.
    pub fn duplicate(&self) -> (copy: ChatMessage)
        ensures
            copy == *self,
    {
        ChatMessage {
            message: self.message.duplicate(),
            display_name: self.display_name.clone(),
            is_own: self.is_own,
            encryption_status: self.encryption_status,
            message_type: self.message_type,
            timestamp: self.timestamp,
            channel: match &self.channel {
                Some(c) => Some(c.clone()),
                None => None,
            },
        }
    }
}

/// The list after one more message: the message at the end, and the oldest
/// one dropped if the list has then more than `capacity`.
pub open spec fn with_message(
    messages: Seq<ChatMessage>,
    message: ChatMessage,
    capacity: nat,
) -> Seq<ChatMessage> {
    let all = messages.push(message);
    if all.len() > capacity {
        all.skip(1)
    } else {
        all
    }
}

/// The message as the chat screen of a user with nickname `nickname` shows
/// it: under the sender's name, as the user's own iff the user sent it, and
/// as encrypted.
pub open spec fn shown_as(
    shown: ChatMessage,
    message: Message,
    msg_type: MessageType,
    channel: Option<String>,
    now: Timestamp,
    nickname: Seq<char>,
) -> bool {
    &&& shown.message == message
    &&& shown.display_name@ == message.sender@
    &&& shown.is_own == (message.sender@ == nickname)
    &&& shown.encryption_status == EncryptionStatus::Encrypted
    &&& shown.message_type == msg_type
    &&& shown.timestamp == now
    &&& shown.channel == channel
}

/// Position of the first user with nickname `nickname`, if `index` is it.
pub open spec fn is_first_user(users: Seq<User>, nickname: Seq<char>, index: int) -> bool {
    &&& 0 <= index < users.len()
    &&& users[index].nickname@ == nickname
    &&& forall|j: int| 0 <= j < index ==> (#[trigger] users[j]).nickname@ != nickname
}

/// Whether no user has nickname `nickname`.
pub open spec fn no_user(users: Seq<User>, nickname: Seq<char>) -> bool {
    forall|j: int| 0 <= j < users.len() ==> (#[trigger] users[j]).nickname@ != nickname
}

/// Position of the first channel with name `name`, if `index` is it.
pub open spec fn is_first_channel(channels: Seq<Channel>, name: Seq<char>, index: int) -> bool {
    &&& 0 <= index < channels.len()
    &&& channels[index].name@ == name
    &&& forall|j: int| 0 <= j < index ==> (#[trigger] channels[j]).name@ != name
}

/// Whether no channel has name `name`.
pub open spec fn no_channel(channels: Seq<Channel>, name: Seq<char>) -> bool {
    forall|j: int| 0 <= j < channels.len() ==> (#[trigger] channels[j]).name@ != name
}

/// Whether `after` is `before` except at position `index`.
pub open spec fn channels_same_except(before: Seq<Channel>, after: Seq<Channel>, index: int) -> bool {
    &&& after.len() == before.len()
    &&& forall|j: int| 0 <= j < before.len() && j != index ==> #[trigger] after[j] == before[j]
}

/// Whether `after` is the channel `before` once the user `nickname` has
/// joined it: joined, with one user more counted, and with the nickname in
/// its list, at the end unless it was there.
pub open spec fn joined_as(before: Channel, after: Channel, nickname: String) -> bool {
    &&& after.name == before.name
    &&& after.topic == before.topic
    &&& after.messages == before.messages
    &&& after.is_joined
    &&& after.user_count == before.user_count + 1
    &&& after.users@ == if names(before.users@).contains(nickname@) {
        before.users@
    } else {
        before.users@.push(nickname)
    }
}

/// Whether `channel` is the channel that a user `nickname` opens by
/// joining `name`: joined, without topic or messages, with that one user.
pub open spec fn opened_as(channel: Channel, name: Seq<char>, nickname: String) -> bool {
    &&& channel.name@ == name
    &&& channel.topic@ == Seq::<char>::empty()
    &&& channel.user_count == 1
    &&& channel.is_joined
    &&& channel.messages@ == Seq::<ChatMessage>::empty()
    &&& channel.users@ == seq![nickname]
}

/// Whether `after` is the channel `before` once the user `nickname` has
/// left it: not joined, with one user less counted if any was, and without
/// the nickname in its list.
pub open spec fn parted_as(before: Channel, after: Channel, nickname: Seq<char>) -> bool {
    &&& after.name == before.name
    &&& after.topic == before.topic
    &&& after.messages == before.messages
    &&& !after.is_joined
    &&& after.user_count == if before.user_count > 0 {
        before.user_count - 1
    } else {
        0
    }
    &&& after.users@ == before.users@.filter(|user: String| user@ != nickname)
}

/// Position of the first joined channel, if `index` is it.
pub open spec fn is_first_joined(channels: Seq<Channel>, index: int) -> bool {
    &&& 0 <= index < channels.len()
    &&& channels[index].is_joined
    &&& forall|j: int| 0 <= j < index ==> !(#[trigger] channels[j]).is_joined
}

/// Whether no channel is joined.
pub open spec fn none_joined(channels: Seq<Channel>) -> bool {
    forall|j: int| 0 <= j < channels.len() ==> !(#[trigger] channels[j]).is_joined
}

/// Whether `after` is the list `before` with its first `from` replaced by
/// `to`, or `before` itself if it does not hold `from`.
pub open spec fn first_renamed(before: Seq<String>, after: Seq<String>, from: Seq<char>, to: Seq<char>) -> bool {
    &&& after.len() == before.len()
    &&& forall|j: int|
        0 <= j < before.len() ==> (#[trigger] after[j])@ == if before[j]@ == from && (forall|k: int|
            0 <= k < j ==> (#[trigger] before[k])@ != from) {
            to
        } else {
            before[j]@
        }
}

/// Whether `after` is the channel `before` with the nickname `from`
/// changed to `to` in its list of users.
pub open spec fn channel_renamed(before: Channel, after: Channel, from: Seq<char>, to: Seq<char>) -> bool {
    &&& after.name == before.name
    &&& after.topic == before.topic
    &&& after.messages == before.messages
    &&& after.is_joined == before.is_joined
    &&& after.user_count == before.user_count
    &&& first_renamed(before.users@, after.users@, from, to)
}

/// Whether `after` is the user `before` under the nickname `to`.
pub open spec fn user_renamed(before: User, after: User, to: Seq<char>) -> bool {
    &&& after.nickname@ == to
    &&& after.username == before.username
    &&& after.hostname == before.hostname
    &&& after.realname == before.realname
    &&& after.is_operator == before.is_operator
    &&& after.is_voice == before.is_voice
    &&& after.is_away == before.is_away
    &&& after.away_message == before.away_message
    &&& after.last_seen == before.last_seen
    &&& after.channels == before.channels
}

/// Whether `after` is the channel `before` without the nickname
/// `nickname` in its list of users.
pub open spec fn channel_without(before: Channel, after: Channel, nickname: Seq<char>) -> bool {
    &&& after.name == before.name
    &&& after.topic == before.topic
    &&& after.messages == before.messages
    &&& after.is_joined == before.is_joined
    &&& after.user_count == before.user_count
    &&& after.users@ == before.users@.filter(|user: String| user@ != nickname)
}

/// Whether `after` is the state `before` once its user has joined the
/// channel `name`. A name that does not start with `#` is no channel and
/// changes nothing. Else the channel is the current one; a known channel
/// counts one user more and lists the nickname; an unknown one is opened
/// at the end of the list with the user as its only one.
pub open spec fn joined_channel(before: ChatState, after: ChatState, name: Seq<char>) -> bool {
    if name.len() > 0 && name[0] == '#' {
        &&& after == (ChatState {
            channels: after.channels,
            current_channel: after.current_channel,
            ..before
        })
        &&& after.current_channel@ == name
        &&& no_channel(before.channels@, name) ==> {
            &&& after.channels@.len() == before.channels@.len() + 1
            &&& after.channels@.drop_last() == before.channels@
            &&& opened_as(after.channels@.last(), name, before.nickname)
        }
        &&& forall|index: int|
            is_first_channel(before.channels@, name, index) ==> {
                &&& channels_same_except(before.channels@, after.channels@, index)
                &&& joined_as(before.channels@[index], after.channels@[index], before.nickname)
            }
    } else {
        after == before
    }
}

/// Whether `after` is the state `before` once its user has left the
/// channel `name`: the first channel of that name is no longer joined,
/// counts one user less and no longer lists the nickname. If it was the
/// current channel, the first channel that is still joined is the current
/// one, if there is one.
pub open spec fn parted_channel(before: ChatState, after: ChatState, name: Seq<char>) -> bool {
    &&& after == (ChatState {
        channels: after.channels,
        current_channel: after.current_channel,
        ..before
    })
    &&& no_channel(before.channels@, name) ==> after.channels@ == before.channels@
    &&& forall|index: int|
        is_first_channel(before.channels@, name, index) ==> {
            &&& channels_same_except(before.channels@, after.channels@, index)
            &&& parted_as(before.channels@[index], after.channels@[index], before.nickname@)
        }
    &&& before.current_channel@ != name ==> after.current_channel == before.current_channel
    &&& before.current_channel@ == name && none_joined(after.channels@) ==> after.current_channel
        == before.current_channel
    &&& before.current_channel@ == name ==> forall|index: int|
        is_first_joined(after.channels@, index) ==> after.current_channel@
            == after.channels@[index].name@
}

/// Whether `after` is the state `before` once its user has taken the
/// nickname `to`: in the state, in the user list of every channel (the
/// first occurrence of the old one), and in the record of the first user
/// who had the old one.
pub open spec fn nickname_changed(before: ChatState, after: ChatState, to: Seq<char>) -> bool {
    &&& after == (ChatState {
        nickname: after.nickname,
        channels: after.channels,
        users: after.users,
        ..before
    })
    &&& after.nickname@ == to
    &&& after.channels@.len() == before.channels@.len()
    &&& forall|j: int|
        0 <= j < before.channels@.len() ==> channel_renamed(
            before.channels@[j],
            #[trigger] after.channels@[j],
            before.nickname@,
            to,
        )
    &&& after.users@.len() == before.users@.len()
    &&& no_user(before.users@, before.nickname@) ==> after.users@ == before.users@
    &&& forall|index: int|
        is_first_user(before.users@, before.nickname@, index) ==> {
            &&& user_renamed(before.users@[index], after.users@[index], to)
            &&& forall|j: int|
                0 <= j < before.users@.len() && j != index ==> #[trigger] after.users@[j]
                    == before.users@[j]
        }
}

/// Whether `after` is `before` once `c` was typed at the cursor: inserted
/// there, or appended if the cursor is at or beyond the end of the line,
/// with the cursor one on.
pub open spec fn typed(before: ChatState, after: ChatState, c: char) -> bool {
    &&& after == (ChatState {
        input_buffer: after.input_buffer,
        cursor_position: after.cursor_position,
        ..before
    })
    &&& after.cursor_position == before.cursor_position + 1
    &&& after.input_buffer@ == if before.cursor_position < before.input_buffer@.len() {
        before.input_buffer@.insert(before.cursor_position as int, c)
    } else {
        before.input_buffer@.push(c)
    }
}

/// Whether `after` is `before` once the character before the cursor was
/// deleted, if the cursor is in the line and not at its start, with the
/// cursor one back.
pub open spec fn deleted(before: ChatState, after: ChatState) -> bool {
    &&& after == (ChatState {
        input_buffer: after.input_buffer,
        cursor_position: after.cursor_position,
        ..before
    })
    &&& if 0 < before.cursor_position <= before.input_buffer@.len() {
        &&& after.cursor_position == before.cursor_position - 1
        &&& after.input_buffer@ == before.input_buffer@.remove(before.cursor_position - 1)
    } else {
        &&& after.cursor_position == before.cursor_position
        &&& after.input_buffer@ == before.input_buffer@
    }
}

/// Whether `after` is `before` with the cursor one to the left, unless it
/// is at the start.
pub open spec fn moved_left(before: ChatState, after: ChatState) -> bool {
    after == (ChatState {
        cursor_position: if before.cursor_position > 0 {
            (before.cursor_position - 1) as usize
        } else {
            0
        },
        ..before
    })
}

/// Whether `after` is `before` with the cursor one to the right, unless
/// it is at or beyond the end of the line.
pub open spec fn moved_right(before: ChatState, after: ChatState) -> bool {
    after == (ChatState {
        cursor_position: if before.cursor_position < before.input_buffer@.len() {
            (before.cursor_position + 1) as usize
        } else {
            before.cursor_position
        },
        ..before
    })
}

/// Whether `after` is `before` with an empty input line and the cursor at
/// its start.
pub open spec fn input_cleared(before: ChatState, after: ChatState) -> bool {
    &&& after == (ChatState { input_buffer: after.input_buffer, cursor_position: 0, ..before })
    &&& after.input_buffer@.len() == 0
}

/// What a shown message says, without its identifier.
pub struct LineModel {
    pub sender: Seq<char>,
    pub recipient: Seq<char>,
    pub content: Seq<char>,
    pub timestamp: nat,
    pub encrypted: bool,
    pub message_type: Seq<char>,
    pub encryption_status: Seq<char>,
    pub display_name: Seq<char>,
    pub is_own: bool,
    pub status: EncryptionStatus,
    pub kind: MessageType,
    pub time: Timestamp,
    pub channel: Option<Seq<char>>,
}

/// What `shown` says, without its identifier.
pub open spec fn line_of(shown: ChatMessage) -> LineModel {
    LineModel {
        sender: shown.message.sender@,
        recipient: shown.message.recipient@,
        content: shown.message.content@,
        timestamp: shown.message.timestamp as nat,
        encrypted: shown.message.encrypted,
        message_type: shown.message.message_type@,
        encryption_status: shown.message.encryption_status@,
        display_name: shown.display_name@,
        is_own: shown.is_own,
        status: shown.encryption_status,
        kind: shown.message_type,
        time: shown.timestamp,
        channel: crate::text::text_of(shown.channel),
    }
}

/// What the messages of a list say.
pub open spec fn lines_of(messages: Seq<ChatMessage>) -> Seq<LineModel> {
    messages.map_values(|shown: ChatMessage| line_of(shown))
}

/// The lines after one more: the line at the end, and the oldest one
/// dropped if there are then more than `capacity`.
pub open spec fn with_line(lines: Seq<LineModel>, line: LineModel, capacity: nat) -> Seq<LineModel> {
    let all = lines.push(line);
    if all.len() > capacity {
        all.skip(1)
    } else {
        all
    }
}

/// The lines after the lines of `more` were added one after the other.
pub open spec fn with_lines(lines: Seq<LineModel>, more: Seq<LineModel>, capacity: nat) -> Seq<
    LineModel,
>
    decreases more.len(),
{
    if more.len() == 0 {
        lines
    } else {
        with_line(with_lines(lines, more.drop_last(), capacity), more.last(), capacity)
    }
}

/// Adding a message to a list adds its line to the lines of the list.
pub proof fn lemma_with_message_lines(messages: Seq<ChatMessage>, shown: ChatMessage, capacity: nat)
    ensures
        lines_of(with_message(messages, shown, capacity)) == with_line(
            lines_of(messages),
            line_of(shown),
            capacity,
        ),
{
    let all = messages.push(shown);
    assert(lines_of(all) =~= lines_of(messages).push(line_of(shown)));
    if all.len() > capacity {
        assert(lines_of(all.skip(1)) =~= lines_of(all).skip(1));
    }
}

/// Whether `after` is the state `before` once `lines` were shown one after
/// the other: in the view, which keeps the newest 100, and in the history,
/// which keeps the newest 1000.
pub open spec fn shown_lines(before: ChatState, after: ChatState, lines: Seq<LineModel>) -> bool {
    &&& after == (ChatState {
        messages: after.messages,
        message_history: after.message_history,
        ..before
    })
    &&& lines_of(after.messages@) == with_lines(
        lines_of(before.messages@),
        lines,
        VIEW_CAPACITY as nat,
    )
    &&& lines_of(after.message_history@) == with_lines(
        lines_of(before.message_history@),
        lines,
        HISTORY_CAPACITY as nat,
    )
}

/// The line of a message of type `message_type` that `sender` sends at
/// `now`, as the user `nickname` sees it.
pub open spec fn line_with(
    message_type: Seq<char>,
    sender: Seq<char>,
    recipient: Seq<char>,
    content: Seq<char>,
    encrypted: bool,
    encryption_status: Seq<char>,
    kind: MessageType,
    channel: Option<Seq<char>>,
    nickname: Seq<char>,
    now: Timestamp,
) -> LineModel {
    LineModel {
        sender,
        recipient,
        content,
        timestamp: now.spec_seconds() as nat,
        encrypted,
        message_type,
        encryption_status,
        display_name: sender,
        is_own: sender == nickname,
        status: EncryptionStatus::Encrypted,
        kind,
        time: now,
        channel,
    }
}

/// The line of an IRC message that `sender` sends at `now`.
pub open spec fn line_from(
    sender: Seq<char>,
    recipient: Seq<char>,
    content: Seq<char>,
    encrypted: bool,
    encryption_status: Seq<char>,
    kind: MessageType,
    channel: Option<Seq<char>>,
    nickname: Seq<char>,
    now: Timestamp,
) -> LineModel {
    line_with(
        "irc"@,
        sender,
        recipient,
        content,
        encrypted,
        encryption_status,
        kind,
        channel,
        nickname,
        now,
    )
}

/// The line of a notice of the system with text `content`, shown in
/// `channel` to the user `nickname` at `now`.
pub open spec fn system_line(
    content: Seq<char>,
    channel: Seq<char>,
    nickname: Seq<char>,
    now: Timestamp,
) -> LineModel {
    line_from(
        "System"@,
        "all"@,
        content,
        false,
        "unencrypted"@,
        MessageType::System,
        Some(channel),
        nickname,
        now,
    )
}

/// Whether `channel` has the given name, topic, count and users, is joined
/// or not as given, and holds no messages.
pub open spec fn channel_is(
    channel: Channel,
    name: Seq<char>,
    topic: Seq<char>,
    user_count: usize,
    is_joined: bool,
    users: Seq<Seq<char>>,
) -> bool {
    &&& channel.name@ == name
    &&& channel.topic@ == topic
    &&& channel.user_count == user_count
    &&& channel.is_joined == is_joined
    &&& channel.messages@ == Seq::<ChatMessage>::empty()
    &&& names(channel.users@) == users
}

/// Whether `user` has the given names, flags and channels, and was last
/// seen at `now`.
pub open spec fn user_is(
    user: User,
    nickname: Seq<char>,
    username: Seq<char>,
    hostname: Seq<char>,
    realname: Seq<char>,
    is_operator: bool,
    is_voice: bool,
    away_message: Option<Seq<char>>,
    channels: Seq<Seq<char>>,
    now: Timestamp,
) -> bool {
    &&& user.nickname@ == nickname
    &&& user.username@ == username
    &&& user.hostname@ == hostname
    &&& user.realname@ == realname
    &&& user.is_operator == is_operator
    &&& user.is_voice == is_voice
    &&& user.is_away == away_message.is_some()
    &&& crate::text::text_of(user.away_message) == away_message
    &&& user.last_seen == now
    &&& names(user.channels@) == channels
}

/// The nickname that the chat screen opens with.
pub open spec fn default_nickname() -> Seq<char> {
    "ghostwire_user"@
}

/// Whether `shown` is the sample message of `sender` with text `content`:
/// an encrypted IRC message of time `now` to `channel`, or to all where
/// there is none.
pub open spec fn sample_is(
    shown: ChatMessage,
    sender: Seq<char>,
    content: Seq<char>,
    msg_type: MessageType,
    channel: Option<Seq<char>>,
    now: Timestamp,
) -> bool {
    &&& shown.message@ == (MessageModel {
        id: shown.message.id,
        sender,
        recipient: match channel {
            Some(c) => c,
            None => "all"@,
        },
        content,
        timestamp: now.spec_seconds() as nat,
        encrypted: true,
        message_type: "irc"@,
        encryption_status: "encrypted"@,
    })
    &&& shown.display_name@ == sender
    &&& shown.is_own == (sender == default_nickname())
    &&& shown.encryption_status == EncryptionStatus::Encrypted
    &&& shown.message_type == msg_type
    &&& shown.timestamp == now
    &&& crate::text::text_of(shown.channel) == channel
}

/// Whether `messages` are the seven sample messages of time `now`.
pub open spec fn samples_are(messages: Seq<ChatMessage>, now: Timestamp) -> bool {
    &&& messages.len() == 7
    &&& sample_is(
        messages[0],
        "System"@,
        "Welcome to GhostWire IRC Network!"@,
        MessageType::System,
        None,
        now,
    )
    &&& sample_is(
        messages[1],
        "System"@,
        "Your nickname is ghostwire_user"@,
        MessageType::System,
        None,
        now,
    )
    &&& sample_is(
        messages[2],
        "alice"@,
        "Hello everyone! \u{1F44B}"@,
        MessageType::PrivMsg,
        Some("#ghostwire"@),
        now,
    )
    &&& sample_is(
        messages[3],
        "ghostwire_user"@,
        "Hi alice! How's the network?"@,
        MessageType::PrivMsg,
        Some("#ghostwire"@),
        now,
    )
    &&& sample_is(
        messages[4],
        "bob"@,
        "Network is running smoothly"@,
        MessageType::PrivMsg,
        Some("#ghostwire"@),
        now,
    )
    &&& sample_is(
        messages[5],
        "alice"@,
        "Just joined #tech"@,
        MessageType::Join,
        Some("#tech"@),
        now,
    )
    &&& sample_is(
        messages[6],
        "System"@,
        "Topic for #ghostwire: Main GhostWire discussion channel"@,
        MessageType::Topic,
        Some("#ghostwire"@),
        now,
    )
}

/// One sample message.
fn sample(
    sender: &str,
    content: &str,
    msg_type: MessageType,
    channel: Option<&str>,
    now: Timestamp,
) -> (shown: ChatMessage)
    ensures
        sample_is(
            shown,
            sender@,
            content@,
            msg_type,
            match channel {
                Some(c) => Some(c@),
                None => None,
            },
            now,
        ),
{
    let recipient = match channel {
        Some(c) => c,
        None => "all",
    };
    let message = Message::fresh(
        sender,
        recipient,
        content,
        now.seconds() as u64,
        true,
        "irc",
        "encrypted",
    );
    ChatMessage {
        message,
        display_name: sender.to_owned(),
        is_own: same_text(sender, "ghostwire_user"),
        encryption_status: EncryptionStatus::Encrypted,
        message_type: msg_type,
        timestamp: now,
        channel: match channel {
            Some(c) => Some(c.to_owned()),
            None => None,
        },
    }
}

/// The seven sample messages of time `now`.
fn samples(now: Timestamp) -> (messages: VecDeque<ChatMessage>)
    ensures
        samples_are(messages@, now),
{
    let mut messages: VecDeque<ChatMessage> = VecDeque::new();
    messages.push_back(
        sample("System", "Welcome to GhostWire IRC Network!", MessageType::System, None, now),
    );
    messages.push_back(
        sample("System", "Your nickname is ghostwire_user", MessageType::System, None, now),
    );
    messages.push_back(
        sample("alice", "Hello everyone! \u{1F44B}", MessageType::PrivMsg, Some("#ghostwire"), now),
    );
    messages.push_back(
        sample(
            "ghostwire_user",
            "Hi alice! How's the network?",
            MessageType::PrivMsg,
            Some("#ghostwire"),
            now,
        ),
    );
    messages.push_back(
        sample("bob", "Network is running smoothly", MessageType::PrivMsg, Some("#ghostwire"), now),
    );
    messages.push_back(sample("alice", "Just joined #tech", MessageType::Join, Some("#tech"), now));
    messages.push_back(
        sample(
            "System",
            "Topic for #ghostwire: Main GhostWire discussion channel",
            MessageType::Topic,
            Some("#ghostwire"),
            now,
        ),
    );
    messages
}

/// A copy of a list of messages.
fn copy_messages(messages: &VecDeque<ChatMessage>) -> (copy: VecDeque<ChatMessage>)
    ensures
        copy@ == messages@,
{
    let mut copy: VecDeque<ChatMessage> = VecDeque::new();
    let mut i: usize = 0;
    while i < messages.len()
        invariant
            i <= messages@.len(),
            copy@ == messages@.take(i as int),
        decreases messages@.len() - i,
    {
        copy.push_back(messages[i].duplicate());
        proof {
            assert(copy@ =~= messages@.take(i + 1));
        }
        i += 1;
    }
    proof {
        assert(messages@.take(messages@.len() as int) =~= messages@);
    }
    copy
}

/// A list of one to three strings.
fn list_of(first: &str, second: Option<&str>, third: Option<&str>) -> (list: Vec<String>)
    requires
        third.is_some() ==> second.is_some(),
    ensures
        names(list@) == match (second, third) {
            (Some(s), Some(t)) => seq![first@, s@, t@],
            (Some(s), None) => seq![first@, s@],
            _ => seq![first@],
        },
{
    let mut list: Vec<String> = Vec::new();
    list.push(first.to_owned());
    match second {
        Some(s) => {
            list.push(s.to_owned());
        },
        None => {},
    }
    match third {
        Some(t) => {
            list.push(t.to_owned());
        },
        None => {},
    }
    proof {
        assert(names(list@) =~= match (second, third) {
            (Some(s), Some(t)) => seq![first@, s@, t@],
            (Some(s), None) => seq![first@, s@],
            _ => seq![first@],
        });
    }
    list
}

impl ChatState {
    /// Whether `state` is the chat screen as it opens at `now`: connected as
    /// `ghostwire_user` in `#ghostwire`, with three channels, three users,
    /// and the seven sample messages in the view and in the history.
    pub open spec fn opens_at(state: ChatState, now: Timestamp) -> bool {
        &&& state.input_buffer@.len() == 0
        &&& state.cursor_position == 0
        &&& state.current_channel@ == "#ghostwire"@
        &&& state.nickname@ == default_nickname()
        &&& state.is_connected
        &&& state.server_info.name@ == "GhostWire IRC"@
        &&& state.server_info.version@ == "1.0.0"@
        &&& state.server_info.uptime == 3600
        &&& state.server_info.user_count == 5
        &&& state.server_info.channel_count == 3
        &&& state.server_info.max_users == 1000
        &&& names(state.server_info.motd@) == seq![
            "Welcome to GhostWire IRC Network"@,
            "Secure, encrypted, anonymous messaging"@,
            "Type /help for available commands"@
        ]
        &&& state.channels@.len() == 3
        &&& channel_is(
            state.channels@[0],
            "#ghostwire"@,
            "Main GhostWire discussion channel"@,
            3,
            true,
            seq!["ghostwire_user"@, "alice"@, "bob"@]
        )
        &&& channel_is(
            state.channels@[1],
            "#general"@,
            "General discussion"@,
            2,
            false,
            seq!["alice"@, "bob"@]
        )
        &&& channel_is(
            state.channels@[2],
            "#tech"@,
            "Technical discussions"@,
            1,
            false,
            seq!["alice"@]
        )
        &&& state.users@.len() == 3
        &&& user_is(
            state.users@[0],
            "ghostwire_user"@,
            "user"@,
            "ghostwire.local"@,
            "GhostWire User"@,
            false,
            false,
            None,
            seq!["#ghostwire"@],
            now
        )
        &&& user_is(
            state.users@[1],
            "alice"@,
            "alice"@,
            "node1.local"@,
            "Alice"@,
            true,
            true,
            None,
            seq!["#ghostwire"@, "#general"@, "#tech"@],
            now
        )
        &&& user_is(
            state.users@[2],
            "bob"@,
            "bob"@,
            "node2.local"@,
            "Bob"@,
            false,
            false,
            Some("Gone fishing"@),
            seq!["#ghostwire"@, "#general"@],
            now
        )
        &&& samples_are(state.messages@, now)
        &&& state.message_history@ == state.messages@
    }

    /// The chat screen as it opens at `now`.
    pub fn new(now: Timestamp) -> (state: Self)
        ensures
            Self::opens_at(state, now),
    {
        let mut channels: Vec<Channel> = Vec::new();
        channels.push(
            Channel {
                name: "#ghostwire".to_owned(),
                topic: "Main GhostWire discussion channel".to_owned(),
                user_count: 3,
                is_joined: true,
                messages: VecDeque::new(),
                users: list_of("ghostwire_user", Some("alice"), Some("bob")),
            },
        );
        channels.push(
            Channel {
                name: "#general".to_owned(),
                topic: "General discussion".to_owned(),
                user_count: 2,
                is_joined: false,
                messages: VecDeque::new(),
                users: list_of("alice", Some("bob"), None),
            },
        );
        channels.push(
            Channel {
                name: "#tech".to_owned(),
                topic: "Technical discussions".to_owned(),
                user_count: 1,
                is_joined: false,
                messages: VecDeque::new(),
                users: list_of("alice", None, None),
            },
        );
        let mut users: Vec<User> = Vec::new();
        users.push(
            User {
                nickname: "ghostwire_user".to_owned(),
                username: "user".to_owned(),
                hostname: "ghostwire.local".to_owned(),
                realname: "GhostWire User".to_owned(),
                is_operator: false,
                is_voice: false,
                is_away: false,
                away_message: None,
                last_seen: now,
                channels: list_of("#ghostwire", None, None),
            },
        );
        users.push(
            User {
                nickname: "alice".to_owned(),
                username: "alice".to_owned(),
                hostname: "node1.local".to_owned(),
                realname: "Alice".to_owned(),
                is_operator: true,
                is_voice: true,
                is_away: false,
                away_message: None,
                last_seen: now,
                channels: list_of("#ghostwire", Some("#general"), Some("#tech")),
            },
        );
        users.push(
            User {
                nickname: "bob".to_owned(),
                username: "bob".to_owned(),
                hostname: "node2.local".to_owned(),
                realname: "Bob".to_owned(),
                is_operator: false,
                is_voice: false,
                is_away: true,
                away_message: Some("Gone fishing".to_owned()),
                last_seen: now,
                channels: list_of("#ghostwire", Some("#general"), None),
            },
        );
        let messages = samples(now);
        let message_history = copy_messages(&messages);
        ChatState {
            messages,
            input_buffer: String::new(),
            cursor_position: 0,
            current_channel: "#ghostwire".to_owned(),
            nickname: "ghostwire_user".to_owned(),
            channels,
            users,
            is_connected: true,
            server_info: ServerInfo {
                name: "GhostWire IRC".to_owned(),
                version: "1.0.0".to_owned(),
                uptime: 3600,
                user_count: 5,
                channel_count: 3,
                max_users: 1000,
                motd: list_of(
                    "Welcome to GhostWire IRC Network",
                    Some("Secure, encrypted, anonymous messaging"),
                    Some("Type /help for available commands"),
                ),
            },
            message_history,
        }
    }

    /// Whether `message` belongs to the current channel.
    pub open spec fn in_current_channel(self, message: ChatMessage) -> bool {
        message.channel.is_some() && message.channel.unwrap()@ == self.current_channel@
    }

    /// Shows `message` at time `now`: appends it to the current view and to
    /// the history. The view keeps the newest 100 messages, the history the
    /// newest 1000.
    pub fn add_message(
        &mut self,
        message: Message,
        msg_type: MessageType,
        channel: Option<String>,
        now: Timestamp,
    )
        ensures
            *final(self) == (ChatState {
                messages: final(self).messages,
                message_history: final(self).message_history,
                ..*old(self)
            }),
            exists|shown: ChatMessage|
                {
                    &&& shown_as(shown, message, msg_type, channel, now, old(self).nickname@)
                    &&& final(self).messages@ == with_message(
                        old(self).messages@,
                        shown,
                        VIEW_CAPACITY as nat,
                    )
                    &&& final(self).message_history@ == with_message(
                        old(self).message_history@,
                        shown,
                        HISTORY_CAPACITY as nat,
                    )
                },
    {
        let is_own = same_text(message.sender.as_str(), self.nickname.as_str());
        let display_name = message.sender.clone();
        let chat_message = ChatMessage {
            message,
            display_name,
            is_own,
            encryption_status: EncryptionStatus::Encrypted,
            message_type: msg_type,
            timestamp: now,
            channel,
        };
        self.messages.push_back(chat_message.duplicate());
        self.message_history.push_back(chat_message);
        if self.messages.len() > VIEW_CAPACITY {
            let _ = self.messages.pop_front();
        }
        if self.message_history.len() > HISTORY_CAPACITY {
            let _ = self.message_history.pop_front();
        }
        proof {
            let view_all = old(self).messages@.push(chat_message);
            if view_all.len() > VIEW_CAPACITY {
                assert(self.messages@ =~= view_all.skip(1));
            }
            let history_all = old(self).message_history@.push(chat_message);
            if history_all.len() > HISTORY_CAPACITY {
                assert(self.message_history@ =~= history_all.skip(1));
            }
            assert(shown_as(chat_message, message, msg_type, channel, now, old(self).nickname@));
            assert(self.messages@ == with_message(
                old(self).messages@,
                chat_message,
                VIEW_CAPACITY as nat,
            ));
            assert(self.message_history@ == with_message(
                old(self).message_history@,
                chat_message,
                HISTORY_CAPACITY as nat,
            ));
        }
    }

    /// Types `c` at the cursor: inserts it there, or appends it if the
    /// cursor is at or beyond the end of the line; the cursor moves one on.
    pub fn add_input_char(&mut self, c: char)
        requires
            old(self).cursor_position < usize::MAX,
        ensures
            typed(*old(self), *final(self), c),
    {
        let length = self.input_buffer.as_str().unicode_len();
        if self.cursor_position < length {
            let mut line = self.input_buffer.as_str().substring_char(0, self.cursor_position).to_owned();
            push_char(&mut line, c);
            line.append(self.input_buffer.as_str().substring_char(self.cursor_position, length));
            proof {
                assert(line@ =~= old(self).input_buffer@.insert(old(self).cursor_position as int, c));
            }
            self.input_buffer = line;
        } else {
            push_char(&mut self.input_buffer, c);
        }
        self.cursor_position = self.cursor_position + 1;
    }

    /// Deletes the character before the cursor, if the cursor is in the
    /// line and not at its start; the cursor moves one back.
    pub fn delete_char(&mut self)
        ensures
            deleted(*old(self), *final(self)),
    {
        let length = self.input_buffer.as_str().unicode_len();
        if self.cursor_position > 0 && self.cursor_position <= length {
            let mut line = self.input_buffer.as_str().substring_char(
                0,
                self.cursor_position - 1,
            ).to_owned();
            line.append(self.input_buffer.as_str().substring_char(self.cursor_position, length));
            proof {
                assert(line@ =~= old(self).input_buffer@.remove(old(self).cursor_position - 1));
            }
            self.input_buffer = line;
            self.cursor_position = self.cursor_position - 1;
        }
    }

    /// Moves the cursor one to the left, unless it is at the start.
    pub fn move_cursor_left(&mut self)
        ensures
            moved_left(*old(self), *final(self)),
    {
        if self.cursor_position > 0 {
            self.cursor_position = self.cursor_position - 1;
        }
    }

    /// Moves the cursor one to the right, unless it is at or beyond the end
    /// of the line.
    pub fn move_cursor_right(&mut self)
        ensures
            moved_right(*old(self), *final(self)),
    {
        let length = self.input_buffer.as_str().unicode_len();
        if self.cursor_position < length {
            self.cursor_position = self.cursor_position + 1;
        }
    }

    /// Empties the input line and puts the cursor at its start.
    pub fn clear_input(&mut self)
        ensures
            input_cleared(*old(self), *final(self)),
    {
        self.input_buffer = String::new();
        self.cursor_position = 0;
    }

    /// The text of the input line.
    pub fn get_input(&self) -> (text: String)
        ensures
            text@ == self.input_buffer@,
    {
        self.input_buffer.clone()
    }

    /// Position of the first user with nickname `nickname`.
    pub(crate) fn user_position(&self, nickname: &str) -> (found: Option<usize>)
        ensures
            match found {
                Some(index) => is_first_user(self.users@, nickname@, index as int),
                None => no_user(self.users@, nickname@),
            },
    {
        let mut i: usize = 0;
        while i < self.users.len()
            invariant
                i <= self.users@.len(),
                forall|j: int| 0 <= j < i ==> (#[trigger] self.users@[j]).nickname@ != nickname@,
            decreases self.users@.len() - i,
        {
            if same_text(self.users[i].nickname.as_str(), nickname) {
                return Some(i);
            }
            i += 1;
        }
        None
    }

    /// Position of the first channel with name `name`.
    pub(crate) fn channel_position(&self, name: &str) -> (found: Option<usize>)
        ensures
            match found {
                Some(index) => is_first_channel(self.channels@, name@, index as int),
                None => no_channel(self.channels@, name@),
            },
    {
        let mut i: usize = 0;
        while i < self.channels.len()
            invariant
                i <= self.channels@.len(),
                forall|j: int| 0 <= j < i ==> (#[trigger] self.channels@[j]).name@ != name@,
            decreases self.channels@.len() - i,
        {
            if same_text(self.channels[i].name.as_str(), name) {
                return Some(i);
            }
            i += 1;
        }
        None
    }

    /// The first user with nickname `nickname`.
    pub fn find_user(&self, nickname: &str) -> (user: Option<&User>)
        ensures
            match user {
                Some(u) => exists|index: int|
                    is_first_user(self.users@, nickname@, index) && *u == self.users@[index],
                None => no_user(self.users@, nickname@),
            },
    {
        match self.user_position(nickname) {
            Some(index) => Some(&self.users[index]),
            None => None,
        }
    }

    /// Adds `user` at the end of the user list, unless a user of that
    /// nickname is listed.
    pub fn add_user(&mut self, user: User)
        ensures
            *final(self) == (ChatState { users: final(self).users, ..*old(self) }),
            final(self).users@ == if no_user(old(self).users@, user.nickname@) {
                old(self).users@.push(user)
            } else {
                old(self).users@
            },
    {
        match self.user_position(user.nickname.as_str()) {
            Some(index) => {
                proof {
                    assert(old(self).users@[index as int].nickname@ == user.nickname@);
                }
            },
            None => {
                self.users.push(user);
            },
        }
    }

    /// The messages of the current view that belong to the current
    /// channel, in their order.
    pub fn get_current_channel_messages(&self) -> (shown: Vec<&ChatMessage>)
        ensures
            shown@.map_values(|message: &ChatMessage| *message) == self.messages@.filter(
                |message: ChatMessage| self.in_current_channel(message),
            ),
    {
        let ghost keep = |message: ChatMessage| self.in_current_channel(message);
        let mut shown: Vec<&ChatMessage> = Vec::new();
        let mut i: usize = 0;
        proof {
            assert(self.messages@.take(0) =~= Seq::<ChatMessage>::empty());
            assert(shown@.map_values(|message: &ChatMessage| *message) =~= Seq::<
                ChatMessage,
            >::empty());
        }
        while i < self.messages.len()
            invariant
                i <= self.messages@.len(),
                keep == |message: ChatMessage| self.in_current_channel(message),
                shown@.map_values(|message: &ChatMessage| *message) == self.messages@.take(
                    i as int,
                ).filter(keep),
            decreases self.messages@.len() - i,
        {
            let ghost before = shown@;
            proof {
                let longer = self.messages@.take(i + 1);
                assert(longer.drop_last() =~= self.messages@.take(i as int));
                assert(longer.last() == self.messages@[i as int]);
                reveal(Seq::filter);
            }
            let message = &self.messages[i];
            let belongs = match &message.channel {
                Some(channel) => same_text(channel.as_str(), self.current_channel.as_str()),
                None => false,
            };
            if belongs {
                shown.push(message);
                proof {
                    assert(shown@.map_values(|message: &ChatMessage| *message) =~= before.map_values(
                        |message: &ChatMessage| *message,
                    ).push(*message));
                }
            }
            i += 1;
        }
        proof {
            assert(self.messages@.take(self.messages@.len() as int) =~= self.messages@);
        }
        shown
    }

    /// Joins the channel `channel_name` and makes it the current one. A
    /// known channel counts one user more and lists the nickname; an
    /// unknown one is opened with the user as its only one. A name that
    /// does not start with `#` is no channel: nothing changes.
    pub fn join_channel(&mut self, channel_name: &str)
        requires
            forall|j: int|
                0 <= j < old(self).channels@.len() ==> (#[trigger] old(self).channels@[j]).user_count
                    < usize::MAX,
        ensures
            joined_channel(*old(self), *final(self), channel_name@),
    {
        if !starts_with_char(channel_name, '#') {
            return ;
        }
        match self.channel_position(channel_name) {
            Some(index) => {
                self.channels[index].is_joined = true;
                self.channels[index].user_count = self.channels[index].user_count + 1;
                let listed = position_of(&self.channels[index].users, self.nickname.as_str());
                proof {
                    if listed.is_some() {
                        assert(names(old(self).channels@[index as int].users@)[listed.unwrap() as int]
                            == self.nickname@);
                    }
                }
                if listed.is_none() {
                    let nickname = self.nickname.clone();
                    self.channels[index].users.push(nickname);
                }
                proof {
                    assert forall|other: int|
                        is_first_channel(
                            old(self).channels@,
                            channel_name@,
                            other,
                        ) implies other == index by {
                        if other < index {
                            assert(old(self).channels@[other].name@ != channel_name@);
                        } else if other > index {
                            assert(old(self).channels@[index as int].name@ != channel_name@);
                        }
                    }
                    assert(!no_channel(old(self).channels@, channel_name@)) by {
                        assert(old(self).channels@[index as int].name@ == channel_name@);
                    }
                }
            },
            None => {
                let mut users: Vec<String> = Vec::new();
                users.push(self.nickname.clone());
                let opened = Channel {
                    name: channel_name.to_owned(),
                    topic: String::new(),
                    user_count: 1,
                    is_joined: true,
                    messages: VecDeque::new(),
                    users,
                };
                self.channels.push(opened);
                proof {
                    assert(self.channels@.drop_last() =~= old(self).channels@);
                    assert(opened.users@ =~= seq![old(self).nickname]);
                }
            },
        }
        self.current_channel = channel_name.to_owned();
    }

    /// Position of the first joined channel.
    fn first_joined(&self) -> (found: Option<usize>)
        ensures
            match found {
                Some(index) => is_first_joined(self.channels@, index as int),
                None => none_joined(self.channels@),
            },
    {
        let mut i: usize = 0;
        while i < self.channels.len()
            invariant
                i <= self.channels@.len(),
                forall|j: int| 0 <= j < i ==> !(#[trigger] self.channels@[j]).is_joined,
            decreases self.channels@.len() - i,
        {
            if self.channels[i].is_joined {
                return Some(i);
            }
            i += 1;
        }
        None
    }

    /// Leaves the channel `channel_name`: the first channel of that name
    /// is no longer joined, counts one user less and no longer lists the
    /// nickname. If it was the current channel, the first channel that is
    /// still joined becomes the current one, if there is one.
    pub fn part_channel(&mut self, channel_name: &str)
        ensures
            parted_channel(*old(self), *final(self), channel_name@),
    {
        match self.channel_position(channel_name) {
            Some(index) => {
                self.channels[index].is_joined = false;
                let count = self.channels[index].user_count;
                self.channels[index].user_count = if count > 0 {
                    count - 1
                } else {
                    0
                };
                let kept = without(&self.channels[index].users, self.nickname.as_str());
                self.channels[index].users = kept;
                proof {
                    assert forall|other: int|
                        is_first_channel(
                            old(self).channels@,
                            channel_name@,
                            other,
                        ) implies other == index by {
                        if other < index {
                            assert(old(self).channels@[other].name@ != channel_name@);
                        } else if other > index {
                            assert(old(self).channels@[index as int].name@ != channel_name@);
                        }
                    }
                    assert(!no_channel(old(self).channels@, channel_name@)) by {
                        assert(old(self).channels@[index as int].name@ == channel_name@);
                    }
                }
            },
            None => {
                proof {
                    assert forall|other: int|
                        is_first_channel(
                            old(self).channels@,
                            channel_name@,
                            other,
                        ) implies false by {
                        assert(old(self).channels@[other].name@ != channel_name@);
                    }
                }
            },
        }
        if same_text(self.current_channel.as_str(), channel_name) {
            match self.first_joined() {
                Some(first) => {
                    self.current_channel = self.channels[first].name.clone();
                    proof {
                        assert forall|other: int|
                            is_first_joined(self.channels@, other) implies other == first by {
                            if other < first {
                                assert(!self.channels@[other].is_joined);
                            } else if other > first {
                                assert(!self.channels@[first as int].is_joined);
                            }
                        }
                    }
                },
                None => {
                    proof {
                        assert forall|other: int|
                            is_first_joined(self.channels@, other) implies false by {
                            assert(!self.channels@[other].is_joined);
                        }
                    }
                },
            }
        }
    }

    /// Changes the nickname to `new_nick`: in the state, in the user list
    /// of every channel (the first occurrence of the old one), and in the
    /// record of the first user who had the old one.
    pub fn change_nickname(&mut self, new_nick: &str)
        ensures
            nickname_changed(*old(self), *final(self), new_nick@),
    {
        let old_nick = self.nickname.clone();
        self.nickname = new_nick.to_owned();
        let mut i: usize = 0;
        while i < self.channels.len()
            invariant
                i <= self.channels@.len(),
                old_nick@ == old(self).nickname@,
                self.channels@.len() == old(self).channels@.len(),
                *self == (ChatState { channels: self.channels, nickname: self.nickname, ..*old(self) }),
                self.nickname@ == new_nick@,
                forall|j: int|
                    0 <= j < i ==> channel_renamed(
                        old(self).channels@[j],
                        #[trigger] self.channels@[j],
                        old_nick@,
                        new_nick@,
                    ),
                forall|j: int|
                    i <= j < self.channels@.len() ==> #[trigger] self.channels@[j] == old(
                        self,
                    ).channels@[j],
            decreases self.channels@.len() - i,
        {
            let ghost before = self.channels@[i as int].users@;
            match position_of(&self.channels[i].users, old_nick.as_str()) {
                Some(position) => {
                    let renamed = new_nick.to_owned();
                    self.channels[i].users.set(position, renamed);
                },
                None => {
                    proof {
                        assert forall|j: int| 0 <= j < before.len() implies before[j]@
                            != old_nick@ by {
                            assert(names(before)[j] == before[j]@);
                        }
                    }
                },
            }
            i += 1;
        }
        match self.user_position(old_nick.as_str()) {
            Some(index) => {
                self.users[index].nickname = new_nick.to_owned();
                proof {
                    assert(!no_user(old(self).users@, old_nick@)) by {
                        assert(old(self).users@[index as int].nickname@ == old_nick@);
                    }
                    assert forall|other: int|
                        is_first_user(old(self).users@, old_nick@, other) implies other == index by {
                        if other < index {
                            assert(old(self).users@[other].nickname@ != old_nick@);
                        } else if other > index {
                            assert(old(self).users@[index as int].nickname@ != old_nick@);
                        }
                    }
                }
            },
            None => {
                proof {
                    assert forall|other: int|
                        is_first_user(old(self).users@, old_nick@, other) implies false by {
                        assert(old(self).users@[other].nickname@ != old_nick@);
                    }
                }
            },
        }
    }

    /// Removes every user with nickname `nickname` from the user list, and
    /// the nickname from the user list of every channel.
    pub fn remove_user(&mut self, nickname: &str)
        ensures
            *final(self) == (ChatState {
                channels: final(self).channels,
                users: final(self).users,
                ..*old(self)
            }),
            final(self).users@ == old(self).users@.filter(|user: User| user.nickname@ != nickname@),
            final(self).channels@.len() == old(self).channels@.len(),
            forall|j: int|
                0 <= j < old(self).channels@.len() ==> channel_without(
                    old(self).channels@[j],
                    #[trigger] final(self).channels@[j],
                    nickname@,
                ),
    {
        let ghost keep = |user: User| user.nickname@ != nickname@;
        let ghost all = self.users@;
        let mut seen: usize = 0;
        let mut at: usize = 0;
        let total = self.users.len();
        proof {
            assert(all.take(0) =~= Seq::<User>::empty());
            assert(all.skip(0) =~= all);
            assert(self.users@ =~= all.take(0).filter(keep) + all.skip(0));
        }
        while seen < total
            invariant
                seen <= total,
                total == all.len(),
                all == old(self).users@,
                keep == |user: User| user.nickname@ != nickname@,
                *self == (ChatState { users: self.users, ..*old(self) }),
                at == all.take(seen as int).filter(keep).len(),
                self.users@ == all.take(seen as int).filter(keep) + all.skip(seen as int),
            decreases total - seen,
        {
            proof {
                let longer = all.take(seen + 1);
                assert(longer.drop_last() =~= all.take(seen as int));
                assert(longer.last() == all[seen as int]);
                reveal(Seq::filter);
                assert(self.users@[at as int] == all.skip(seen as int)[0]);
            }
            let ghost before = self.users@;
            if same_text(self.users[at].nickname.as_str(), nickname) {
                let _ = self.users.remove(at);
                proof {
                    assert(self.users@ =~= all.take(seen + 1).filter(keep) + all.skip(seen + 1));
                }
            } else {
                proof {
                    assert(self.users@ =~= all.take(seen + 1).filter(keep) + all.skip(seen + 1));
                }
                at += 1;
            }
            seen += 1;
        }
        proof {
            assert(all.take(total as int) =~= all);
            assert(all.skip(total as int) =~= Seq::<User>::empty());
            assert(self.users@ =~= all.filter(keep));
        }
        let mut i: usize = 0;
        while i < self.channels.len()
            invariant
                i <= self.channels@.len(),
                self.channels@.len() == old(self).channels@.len(),
                *self == (ChatState { users: self.users, channels: self.channels, ..*old(self) }),
                self.users@ == old(self).users@.filter(|user: User| user.nickname@ != nickname@),
                forall|j: int|
                    0 <= j < i ==> channel_without(
                        old(self).channels@[j],
                        #[trigger] self.channels@[j],
                        nickname@,
                    ),
                forall|j: int|
                    i <= j < self.channels@.len() ==> #[trigger] self.channels@[j] == old(
                        self,
                    ).channels@[j],
            decreases self.channels@.len() - i,
        {
            let kept = without(&self.channels[i].users, nickname);
            self.channels[i].users = kept;
            i += 1;
        }
    }

    /// The users that are in the channel `channel_name`, in their order.
    pub fn get_channel_users(&self, channel_name: &str) -> (members: Vec<&User>)
        ensures
            members@.map_values(|user: &User| *user) == self.users@.filter(
                |user: User| names(user.channels@).contains(channel_name@),
            ),
    {
        let ghost keep = |user: User| names(user.channels@).contains(channel_name@);
        let mut members: Vec<&User> = Vec::new();
        let mut i: usize = 0;
        proof {
            assert(self.users@.take(0) =~= Seq::<User>::empty());
            assert(members@.map_values(|user: &User| *user) =~= Seq::<User>::empty());
        }
        while i < self.users.len()
            invariant
                i <= self.users@.len(),
                keep == |user: User| names(user.channels@).contains(channel_name@),
                members@.map_values(|user: &User| *user) == self.users@.take(i as int).filter(keep),
            decreases self.users@.len() - i,
        {
            let ghost before = members@;
            proof {
                let longer = self.users@.take(i + 1);
                assert(longer.drop_last() =~= self.users@.take(i as int));
                assert(longer.last() == self.users@[i as int]);
                reveal(Seq::filter);
            }
            let user = &self.users[i];
            let found = position_of(&user.channels, channel_name);
            proof {
                if found.is_some() {
                    assert(names(user.channels@)[found.unwrap() as int] == channel_name@);
                }
            }
            if found.is_some() {
                members.push(user);
                proof {
                    assert(members@.map_values(|user: &User| *user) =~= before.map_values(
                        |user: &User| *user,
                    ).push(*user));
                }
            }
            i += 1;
        }
        proof {
            assert(self.users@.take(self.users@.len() as int) =~= self.users@);
        }
        members
    }
}

/// The line that shows `message`: the time of day in brackets, then what
/// the kind of the message calls for.
pub open spec fn format_text(message: ChatMessage) -> Seq<char> {
    let stamp = "["@ + message.timestamp.hour_minute_text() + "] "@;
    let name = message.display_name@;
    let content = message.message.content@;
    let channel = match message.channel {
        Some(c) => c@,
        None => Seq::<char>::empty(),
    };
    match message.message_type {
        MessageType::PrivMsg => stamp + "<"@ + name + "> "@ + content,
        MessageType::Notice => stamp + "-"@ + name + "- "@ + content,
        MessageType::Join => stamp + "*** "@ + name + " has joined "@ + channel,
        MessageType::Part => stamp + "*** "@ + name + " has left "@ + channel,
        MessageType::Quit => stamp + "*** "@ + name + " has quit IRC"@,
        MessageType::Nick => stamp + "*** "@ + name + " is now known as "@ + content,
        MessageType::Mode => stamp + "*** "@ + name + " sets mode "@ + content,
        MessageType::Topic => stamp + "*** "@ + name + " changes topic to: "@ + content,
        MessageType::Kick => stamp + "*** "@ + content + " has been kicked by "@ + name,
        MessageType::Ban => stamp + "*** "@ + content + " has been banned by "@ + name,
        MessageType::System => stamp + "*** "@ + content,
        MessageType::Action => stamp + name + " "@ + content,
        MessageType::Ctcp => stamp + "CTCP "@ + name + ": "@ + content,
    }
}

/// The line that shows `msg` on the chat screen.
pub fn format_message(msg: &ChatMessage) -> (line: String)
    ensures
        line@ == format_text(*msg),
{
    let mut line = "[".to_owned();
    line.append(msg.timestamp.hour_minute().as_str());
    line.append("] ");
    let name = msg.display_name.as_str();
    let content = msg.message.content.as_str();
    let channel = match &msg.channel {
        Some(c) => c.as_str(),
        None => "",
    };
    proof {
        assert(""@ =~= Seq::<char>::empty()) by {
            reveal_strlit("");
        }
    }
    match msg.message_type {
        MessageType::PrivMsg => {
            line.append("<");
            line.append(name);
            line.append("> ");
            line.append(content);
        },
        MessageType::Notice => {
            line.append("-");
            line.append(name);
            line.append("- ");
            line.append(content);
        },
        MessageType::Join => {
            line.append("*** ");
            line.append(name);
            line.append(" has joined ");
            line.append(channel);
        },
        MessageType::Part => {
            line.append("*** ");
            line.append(name);
            line.append(" has left ");
            line.append(channel);
        },
        MessageType::Quit => {
            line.append("*** ");
            line.append(name);
            line.append(" has quit IRC");
        },
        MessageType::Nick => {
            line.append("*** ");
            line.append(name);
            line.append(" is now known as ");
            line.append(content);
        },
        MessageType::Mode => {
            line.append("*** ");
            line.append(name);
            line.append(" sets mode ");
            line.append(content);
        },
        MessageType::Topic => {
            line.append("*** ");
            line.append(name);
            line.append(" changes topic to: ");
            line.append(content);
        },
        MessageType::Kick => {
            line.append("*** ");
            line.append(content);
            line.append(" has been kicked by ");
            line.append(name);
        },
        MessageType::Ban => {
            line.append("*** ");
            line.append(content);
            line.append(" has been banned by ");
            line.append(name);
        },
        MessageType::System => {
            line.append("*** ");
            line.append(content);
        },
        MessageType::Action => {
            line.append(name);
            line.append(" ");
            line.append(content);
        },
        MessageType::Ctcp => {
            line.append("CTCP ");
            line.append(name);
            line.append(": ");
            line.append(content);
        },
    }
    line
}

/// Whether `after` is `before` with what `sent` holds added to the outbox.
pub open spec fn outbox_extended(before: TuiApp, after: TuiApp, sent: Option<Seq<char>>) -> bool {
    &&& after == (TuiApp { outbox: after.outbox, ..before })
    &&& requests(after.outbox@) == match sent {
        Some(text) => requests(before.outbox@).push(RequestModel::SendMessage(text)),
        None => requests(before.outbox@),
    }
}

/// Whether `after` is what Enter on the chat screen makes of `before` at
/// `now`, by way of `worked` and `between`. An empty line does nothing. A
/// line that starts with `/` is a command and is carried out. Any other
/// line is said in the current channel. What is to go to the network goes
/// to the outbox, and the line is emptied.
pub open spec fn chat_line_entered(
    before: TuiApp,
    worked: ChatState,
    between: ChatState,
    after: TuiApp,
    now: Timestamp,
    sent: Option<Seq<char>>,
) -> bool {
    let line = before.chat_state.input_buffer@;
    if line.len() == 0 {
        after == before
    } else {
        &&& if line[0] == '/' {
            command_done(
                before.chat_state,
                worked,
                between,
                command_of(whitespace_split(line)),
                now,
                sent,
            )
        } else {
            &&& sent == Some(line)
            &&& shown_lines(
                before.chat_state,
                between,
                seq![
                    line_from(
                        before.chat_state.nickname@,
                        before.chat_state.current_channel@,
                        line,
                        true,
                        "encrypted"@,
                        MessageType::PrivMsg,
                        Some(before.chat_state.current_channel@),
                        before.chat_state.nickname@,
                        now,
                    ),
                ],
            )
        }
        &&& line_finished(before, between, after, sent)
    }
}

/// What a key does on the chat screen, by way of `worked` and `between`:
/// the keys edit the input line, and Enter enters it.
pub open spec fn chat_input_done(
    before: TuiApp,
    worked: ChatState,
    between: ChatState,
    after: TuiApp,
    key: KeyPress,
    now: Timestamp,
    sent: Option<Seq<char>>,
) -> bool {
    match key.code {
        Key::Char(c) => only_chat_changed(before, after) && typed(
            before.chat_state,
            after.chat_state,
            c,
        ),
        Key::Backspace => only_chat_changed(before, after) && deleted(
            before.chat_state,
            after.chat_state,
        ),
        Key::Left => only_chat_changed(before, after) && moved_left(
            before.chat_state,
            after.chat_state,
        ),
        Key::Right => only_chat_changed(before, after) && moved_right(
            before.chat_state,
            after.chat_state,
        ),
        Key::Enter => chat_line_entered(before, worked, between, after, now, sent),
        _ => after == before,
    }
}

/// Puts what `sent` holds into the outbox.
fn hand_over(app: &mut TuiApp, sent: Option<String>)
    ensures
        outbox_extended(*old(app), *final(app), text_of(sent)),
{
    let ghost before = app.outbox@;
    match sent {
        Some(text) => {
            app.outbox.push(TuiMessage::SendMessage(text));
            proof {
                assert(requests(app.outbox@) =~= requests(before).push(
                    RequestModel::SendMessage(text@),
                ));
            }
        },
        None => {},
    }
}

/// Whether `after` is `before` with the chat screen `chat`, what `sent`
/// holds added to the outbox, and the input line emptied.
pub open spec fn line_finished(before: TuiApp, chat: ChatState, after: TuiApp, sent: Option<Seq<char>>) -> bool {
    &&& outbox_extended(TuiApp { chat_state: after.chat_state, ..before }, after, sent)
    &&& input_cleared(chat, after.chat_state)
}

/// Puts what `sent` holds into the outbox and empties the input line.
fn finish_line(app: &mut TuiApp, sent: Option<String>)
    ensures
        line_finished(*old(app), old(app).chat_state, *final(app), text_of(sent)),
{
    hand_over(app, sent);
    app.chat_state.clear_input();
}

/// Carries out the command on the input line of the chat screen.
fn enter_command(app: &mut TuiApp, input: &str, now: Timestamp) -> (sent: Option<String>)
    requires
        forall|j: int|
            0 <= j < old(app).chat_state.channels@.len() ==> (#[trigger] old(
                app,
            ).chat_state.channels@[j]).user_count < usize::MAX,
    ensures
        only_chat_changed(*old(app), *final(app)),
        exists|worked: ChatState| #[trigger]
            command_done(
                old(app).chat_state,
                worked,
                final(app).chat_state,
                command_of(whitespace_split(input@)),
                now,
                text_of(sent),
            ),
{
    app.chat_state.handle_irc_command(input, now)
}

/// Says the input line of the chat screen in the current channel.
fn enter_message(app: &mut TuiApp, input: &str, now: Timestamp) -> (sent: String)
    ensures
        only_chat_changed(*old(app), *final(app)),
        sent@ == input@,
        shown_lines(
            old(app).chat_state,
            final(app).chat_state,
            seq![
                line_from(
                    old(app).chat_state.nickname@,
                    old(app).chat_state.current_channel@,
                    input@,
                    true,
                    "encrypted"@,
                    MessageType::PrivMsg,
                    Some(old(app).chat_state.current_channel@),
                    old(app).chat_state.nickname@,
                    now,
                ),
            ],
        ),
{
    app.chat_state.send_irc_message(input, now)
}

/// Enters the input line of the chat screen.
fn enter_chat_line(app: &mut TuiApp, now: Timestamp)
    requires
        forall|j: int|
            0 <= j < old(app).chat_state.channels@.len() ==> (#[trigger] old(
                app,
            ).chat_state.channels@[j]).user_count < usize::MAX,
    ensures
        exists|worked: ChatState, between: ChatState, sent: Option<Seq<char>>| #[trigger]
            chat_line_entered(*old(app), worked, between, *final(app), now, sent),
{
    let input = app.chat_state.get_input();
    if input.as_str().is_empty() {
        proof {
            assert(chat_line_entered(*old(app), app.chat_state, app.chat_state, *app, now, None));
        }
        return ;
    }
    if starts_with_char(input.as_str(), '/') {
        let sent = enter_command(app, input.as_str(), now);
        let ghost between = app.chat_state;
        let ghost middle = *app;
        let ghost worked = choose|worked: ChatState| #[trigger]
            command_done(
                old(app).chat_state,
                worked,
                between,
                command_of(whitespace_split(input@)),
                now,
                text_of(sent),
            );
        let ghost sent_text = text_of(sent);
        finish_line(app, sent);
        proof {
            assert(line_finished(middle, between, *app, sent_text));
            assert((TuiApp { chat_state: app.chat_state, ..middle }) == (TuiApp {
                chat_state: app.chat_state,
                ..*old(app)
            }));
            assert(chat_line_entered(*old(app), worked, between, *app, now, sent_text));
        }
    } else {
        let sent = enter_message(app, input.as_str(), now);
        let ghost between = app.chat_state;
        let ghost middle = *app;
        finish_line(app, Some(sent));
        proof {
            assert(line_finished(middle, between, *app, Some(input@)));
            assert((TuiApp { chat_state: app.chat_state, ..middle }) == (TuiApp {
                chat_state: app.chat_state,
                ..*old(app)
            }));
            assert(chat_line_entered(*old(app), between, between, *app, now, Some(input@)));
        }
    }
}

/// Takes a key on the chat screen.
pub fn handle_input(app: &mut TuiApp, key: KeyPress, now: Timestamp)
    requires
        old(app).chat_state.cursor_position < usize::MAX,
        forall|j: int|
            0 <= j < old(app).chat_state.channels@.len() ==> (#[trigger] old(
                app,
            ).chat_state.channels@[j]).user_count < usize::MAX,
    ensures
        exists|worked: ChatState, between: ChatState, sent: Option<Seq<char>>| #[trigger]
            chat_input_done(*old(app), worked, between, *final(app), key, now, sent),
{
    match key.code {
        Key::Char(c) => {
            app.chat_state.add_input_char(c);
            proof {
                assert(chat_input_done(
                    *old(app),
                    app.chat_state,
                    app.chat_state,
                    *app,
                    key,
                    now,
                    None,
                ));
            }
        },
        Key::Backspace => {
            app.chat_state.delete_char();
            proof {
                assert(chat_input_done(
                    *old(app),
                    app.chat_state,
                    app.chat_state,
                    *app,
                    key,
                    now,
                    None,
                ));
            }
        },
        Key::Left => {
            app.chat_state.move_cursor_left();
            proof {
                assert(chat_input_done(
                    *old(app),
                    app.chat_state,
                    app.chat_state,
                    *app,
                    key,
                    now,
                    None,
                ));
            }
        },
        Key::Right => {
            app.chat_state.move_cursor_right();
            proof {
                assert(chat_input_done(
                    *old(app),
                    app.chat_state,
                    app.chat_state,
                    *app,
                    key,
                    now,
                    None,
                ));
            }
        },
        Key::Enter => {
            enter_chat_line(app, now);
            proof {
                let (worked, between, sent) = choose|
                    worked: ChatState,
                    between: ChatState,
                    sent: Option<Seq<char>>,
                | #[trigger] chat_line_entered(*old(app), worked, between, *app, now, sent);
                assert(chat_input_done(*old(app), worked, between, *app, key, now, sent));
            }
        },
        _ => {
            proof {
                assert(chat_input_done(
                    *old(app),
                    app.chat_state,
                    app.chat_state,
                    *app,
                    key,
                    now,
                    None,
                ));
            }
        },
    }
}

} // verus!
