//! The commands of the chat line, after those of IRC: how a line is read
//! as a command, and what each command does to the chat screen.

use vstd::prelude::*;
use vstd::string::StringExecFns;
use crate::keyed::names;
use crate::message::Message;
use crate::text::{
    decimal_text, join_from, joined, number_text, same_text, split_whitespace, text_of,
    whitespace_split,
};
use crate::timestamp::Timestamp;
use crate::tui::chat::{
    ChatMessage, ChatState, Channel, LineModel, MessageType, User, channels_same_except,
    is_first_channel, is_first_user, joined_channel, lemma_with_message_lines, line_from, line_of,
    lines_of, line_with, nickname_changed, no_channel, no_user, parted_channel, shown_as, shown_lines,
    system_line, with_line, with_lines, with_message, HISTORY_CAPACITY, VIEW_CAPACITY,
};

verus! {

/// A command of the chat line.
#[derive(Debug, Clone)]
pub enum IrcCommand {
    Join(String),
    /// Leave the named channel, or the current one where none is named.
    Part(Option<String>),
    Nick(String),
    /// A private message: the target and the text.
    Msg(String, String),
    Me(String),
    Topic(String),
    Whois(String),
    List,
    Users,
    Help,
    Quit,
    /// A word that is no command.
    Unknown(String),
    /// No word at all, or a command without the argument that it needs.
    Nothing,
}

/// Mathematical value of an [`IrcCommand`].
pub enum IrcCommandModel {
    Join(Seq<char>),
    Part(Option<Seq<char>>),
    Nick(Seq<char>),
    Msg(Seq<char>, Seq<char>),
    Me(Seq<char>),
    Topic(Seq<char>),
    Whois(Seq<char>),
    List,
    Users,
    Help,
    Quit,
    Unknown(Seq<char>),
    Nothing,
}

impl View for IrcCommand {
    type V = IrcCommandModel;

    open spec fn view(&self) -> IrcCommandModel {
        match self {
            IrcCommand::Join(c) => IrcCommandModel::Join(c@),
            IrcCommand::Part(c) => IrcCommandModel::Part(crate::text::text_of(*c)),
            IrcCommand::Nick(n) => IrcCommandModel::Nick(n@),
            IrcCommand::Msg(target, text) => IrcCommandModel::Msg(target@, text@),
            IrcCommand::Me(a) => IrcCommandModel::Me(a@),
            IrcCommand::Topic(t) => IrcCommandModel::Topic(t@),
            IrcCommand::Whois(n) => IrcCommandModel::Whois(n@),
            IrcCommand::List => IrcCommandModel::List,
            IrcCommand::Users => IrcCommandModel::Users,
            IrcCommand::Help => IrcCommandModel::Help,
            IrcCommand::Quit => IrcCommandModel::Quit,
            IrcCommand::Unknown(w) => IrcCommandModel::Unknown(w@),
            IrcCommand::Nothing => IrcCommandModel::Nothing,
        }
    }
}

/// The command that the words of a line make. The first word names the
/// command; the words after it are its arguments, and the text of a
/// message, an action or a topic is all the words left, with one space
/// between each two.
pub open spec fn command_of(words: Seq<Seq<char>>) -> IrcCommandModel {
    if words.len() == 0 {
        IrcCommandModel::Nothing
    } else if words[0] == "/join"@ || words[0] == "/j"@ {
        if words.len() > 1 {
            IrcCommandModel::Join(words[1])
        } else {
            IrcCommandModel::Nothing
        }
    } else if words[0] == "/part"@ || words[0] == "/leave"@ {
        if words.len() > 1 {
            IrcCommandModel::Part(Some(words[1]))
        } else {
            IrcCommandModel::Part(None)
        }
    } else if words[0] == "/nick"@ {
        if words.len() > 1 {
            IrcCommandModel::Nick(words[1])
        } else {
            IrcCommandModel::Nothing
        }
    } else if words[0] == "/msg"@ || words[0] == "/m"@ {
        if words.len() > 2 {
            IrcCommandModel::Msg(words[1], joined(words.skip(2), " "@))
        } else {
            IrcCommandModel::Nothing
        }
    } else if words[0] == "/me"@ {
        if words.len() > 1 {
            IrcCommandModel::Me(joined(words.skip(1), " "@))
        } else {
            IrcCommandModel::Nothing
        }
    } else if words[0] == "/topic"@ {
        if words.len() > 1 {
            IrcCommandModel::Topic(joined(words.skip(1), " "@))
        } else {
            IrcCommandModel::Nothing
        }
    } else if words[0] == "/whois"@ {
        if words.len() > 1 {
            IrcCommandModel::Whois(words[1])
        } else {
            IrcCommandModel::Nothing
        }
    } else if words[0] == "/list"@ {
        IrcCommandModel::List
    } else if words[0] == "/users"@ {
        IrcCommandModel::Users
    } else if words[0] == "/help"@ {
        IrcCommandModel::Help
    } else if words[0] == "/quit"@ {
        IrcCommandModel::Quit
    } else {
        IrcCommandModel::Unknown(words[0])
    }
}

/// The command that the words of a line make.
pub fn read_command(words: &Vec<String>) -> (command: IrcCommand)
    ensures
        command@ == command_of(names(words@)),
{
    if words.len() == 0 {
        return IrcCommand::Nothing;
    }
    proof {
        assert(names(words@).skip(1) =~= words@.skip(1).map_values(|part: String| part@));
        if words@.len() >= 2 {
            assert(names(words@).skip(2) =~= words@.skip(2).map_values(|part: String| part@));
        }
    }
    let word = words[0].as_str();
    if same_text(word, "/join") || same_text(word, "/j") {
        if words.len() > 1 {
            IrcCommand::Join(words[1].clone())
        } else {
            IrcCommand::Nothing
        }
    } else if same_text(word, "/part") || same_text(word, "/leave") {
        if words.len() > 1 {
            IrcCommand::Part(Some(words[1].clone()))
        } else {
            IrcCommand::Part(None)
        }
    } else if same_text(word, "/nick") {
        if words.len() > 1 {
            IrcCommand::Nick(words[1].clone())
        } else {
            IrcCommand::Nothing
        }
    } else if same_text(word, "/msg") || same_text(word, "/m") {
        if words.len() > 2 {
            IrcCommand::Msg(words[1].clone(), join_from(words, 2, " "))
        } else {
            IrcCommand::Nothing
        }
    } else if same_text(word, "/me") {
        if words.len() > 1 {
            IrcCommand::Me(join_from(words, 1, " "))
        } else {
            IrcCommand::Nothing
        }
    } else if same_text(word, "/topic") {
        if words.len() > 1 {
            IrcCommand::Topic(join_from(words, 1, " "))
        } else {
            IrcCommand::Nothing
        }
    } else if same_text(word, "/whois") {
        if words.len() > 1 {
            IrcCommand::Whois(words[1].clone())
        } else {
            IrcCommand::Nothing
        }
    } else if same_text(word, "/list") {
        IrcCommand::List
    } else if same_text(word, "/users") {
        IrcCommand::Users
    } else if same_text(word, "/help") {
        IrcCommand::Help
    } else if same_text(word, "/quit") {
        IrcCommand::Quit
    } else {
        IrcCommand::Unknown(words[0].clone())
    }
}

/// The command that the line `command` makes: that of its words, which
/// whitespace separates.
pub fn parse_command(command: &str) -> (parsed: IrcCommand)
    ensures
        parsed@ == command_of(whitespace_split(command@)),
{
    let words = split_whitespace(command);
    read_command(&words)
}

/// The lines of notices of the system with the texts `contents`.
pub open spec fn system_lines(
    contents: Seq<Seq<char>>,
    channel: Seq<char>,
    nickname: Seq<char>,
    now: Timestamp,
) -> Seq<LineModel> {
    contents.map_values(|content: Seq<char>| system_line(content, channel, nickname, now))
}

/// Adding one line is adding a list of that one line.
pub proof fn lemma_with_lines_one(lines: Seq<LineModel>, line: LineModel, capacity: nat)
    ensures
        with_lines(lines, seq![line], capacity) == with_line(lines, line, capacity),
{
    let one = seq![line];
    assert(one.drop_last() =~= Seq::<LineModel>::empty());
    assert(with_lines(lines, one.drop_last(), capacity) == lines);
    assert(one.last() == line);
}

/// Adding two lists of lines one after the other is adding the two as one.
pub proof fn lemma_with_lines_append(
    lines: Seq<LineModel>,
    first: Seq<LineModel>,
    second: Seq<LineModel>,
    capacity: nat,
)
    ensures
        with_lines(with_lines(lines, first, capacity), second, capacity) == with_lines(
            lines,
            first + second,
            capacity,
        ),
    decreases second.len(),
{
    if second.len() == 0 {
        assert(first + second =~= first);
    } else {
        lemma_with_lines_append(lines, first, second.drop_last(), capacity);
        assert((first + second).drop_last() =~= first + second.drop_last());
        assert((first + second).last() == second.last());
    }
}

/// Showing lines and then more lines is showing all of them in a row.
pub proof fn lemma_shown_lines_then(
    before: ChatState,
    between: ChatState,
    after: ChatState,
    first: Seq<LineModel>,
    second: Seq<LineModel>,
)
    requires
        shown_lines(before, between, first),
        shown_lines(between, after, second),
    ensures
        shown_lines(before, after, first + second),
{
    lemma_with_lines_append(lines_of(before.messages@), first, second, VIEW_CAPACITY as nat);
    lemma_with_lines_append(
        lines_of(before.message_history@),
        first,
        second,
        HISTORY_CAPACITY as nat,
    );
}

/// The notices that answer a query for `user`: who it is, its channels, and
/// its message of absence if it is away.
pub open spec fn whois_notices(user: User) -> Seq<Seq<char>> {
    let who = "WHOIS "@ + user.nickname@ + ": "@ + user.username@ + "@"@ + user.hostname@ + " ("@
        + user.realname@ + ")"@;
    let channels = "Channels: "@ + joined(names(user.channels@), ", "@);
    if user.is_away {
        seq![
            who,
            channels,
            "Away: "@ + match user.away_message {
                Some(message) => message@,
                None => "No message"@,
            },
        ]
    } else {
        seq![who, channels]
    }
}

/// The line of a channel in the list of channels.
pub open spec fn channel_line(channel: Channel) -> Seq<char> {
    channel.name@ + " "@ + decimal_text(channel.user_count as nat) + " "@ + channel.topic@
}

/// The notices that list `channels`: a heading, then one line each.
pub open spec fn channel_list_notices(channels: Seq<Channel>) -> Seq<Seq<char>> {
    seq!["Channel List:"@] + channels.map_values(|channel: Channel| channel_line(channel))
}

/// The line of a user in the list of users: the nickname, after `@` for
/// an operator or else `+` for a user with voice.
pub open spec fn user_line(user: User) -> Seq<char> {
    if user.is_operator {
        "@"@ + user.nickname@
    } else if user.is_voice {
        "+"@ + user.nickname@
    } else {
        user.nickname@
    }
}

/// The notices that list the users of the current channel: a heading, then
/// one line each.
pub open spec fn user_list_notices(state: ChatState) -> Seq<Seq<char>> {
    seq!["Users in "@ + state.current_channel@ + ":"@] + state.users@.filter(
        |user: User| names(user.channels@).contains(state.current_channel@),
    ).map_values(|user: User| user_line(user))
}

/// The notices that explain the commands.
pub open spec fn help_notices() -> Seq<Seq<char>> {
    seq![
        "Available commands:"@,
        "/join <channel> - Join a channel"@,
        "/part [channel] - Leave a channel"@,
        "/nick <newnick> - Change nickname"@,
        "/msg <nick> <message> - Send private message"@,
        "/me <action> - Send action message"@,
        "/topic <topic> - Set channel topic"@,
        "/whois <nick> - Get user information"@,
        "/list - Show channel list"@,
        "/users - Show users in current channel"@,
        "/help - Show this help"@,
        "/quit - Disconnect from server"@,
    ]
}

/// Whether `after` is `before` once notices of the system with the texts
/// `contents` were shown.
pub open spec fn notified(
    before: ChatState,
    after: ChatState,
    contents: Seq<Seq<char>>,
    now: Timestamp,
) -> bool {
    shown_lines(
        before,
        after,
        system_lines(contents, before.current_channel@, before.nickname@, now),
    )
}

/// Whether `after` is `before` with the topic `topic` for the channel at
/// `index`.
pub open spec fn topic_changed(before: ChatState, after: ChatState, index: int, topic: Seq<char>) -> bool {
    &&& after == (ChatState { channels: after.channels, ..before })
    &&& channels_same_except(before.channels@, after.channels@, index)
    &&& 0 <= index < before.channels@.len()
    &&& after.channels@[index].topic@ == topic
    &&& after.channels@[index] == (Channel {
        topic: after.channels@[index].topic,
        ..before.channels@[index]
    })
}

/// Whether `after` is `before` once the topic of the current channel was
/// set to `topic`, by way of `between`: the first channel with the name of
/// the current one has the topic, and a notice says so. Without such a
/// channel nothing changes.
pub open spec fn topic_set(
    before: ChatState,
    between: ChatState,
    after: ChatState,
    topic: Seq<char>,
    now: Timestamp,
) -> bool {
    if no_channel(before.channels@, before.current_channel@) {
        after == before
    } else {
        &&& forall|index: int|
            is_first_channel(before.channels@, before.current_channel@, index) ==> topic_changed(
                before,
                between,
                index,
                topic,
            )
        &&& notified(between, after, seq!["Topic changed to: "@ + topic], now)
    }
}

/// Whether `after` is `before` once a query for `nickname` was answered:
/// with the notices on the first user of that nickname, or with the notice
/// that there is none.
pub open spec fn whois_shown(
    before: ChatState,
    after: ChatState,
    nickname: Seq<char>,
    now: Timestamp,
) -> bool {
    &&& no_user(before.users@, nickname) ==> notified(
        before,
        after,
        seq!["No such nick: "@ + nickname],
        now,
    )
    &&& forall|index: int|
        is_first_user(before.users@, nickname, index) ==> notified(
            before,
            after,
            whois_notices(before.users@[index]),
            now,
        )
}

/// Whether `after`, by way of `between`, is what the command `command`
/// makes of `before` at `now`, and `sent` the text that it sends to the
/// network, if it sends one.
#[verifier::opaque]
pub open spec fn command_done(
    before: ChatState,
    between: ChatState,
    after: ChatState,
    command: IrcCommandModel,
    now: Timestamp,
    sent: Option<Seq<char>>,
) -> bool {
    match command {
        IrcCommandModel::Join(channel) => {
            &&& sent.is_none()
            &&& joined_channel(before, between, channel)
            &&& notified(between, after, seq!["Joined channel "@ + channel], now)
        },
        IrcCommandModel::Part(Some(channel)) => {
            &&& sent.is_none()
            &&& parted_channel(before, between, channel)
            &&& notified(between, after, seq!["Left channel "@ + channel], now)
        },
        IrcCommandModel::Part(None) => {
            &&& sent.is_none()
            &&& parted_channel(before, between, before.current_channel@)
            &&& notified(between, after, seq!["Left channel "@ + before.current_channel@], now)
        },
        IrcCommandModel::Nick(nickname) => {
            &&& sent.is_none()
            &&& nickname_changed(before, between, nickname)
            &&& notified(
                between,
                after,
                seq!["Nickname changed from "@ + before.nickname@ + " to "@ + nickname],
                now,
            )
        },
        IrcCommandModel::Msg(target, text) => {
            &&& sent == Some(text)
            &&& shown_lines(
                before,
                after,
                seq![
                    line_from(
                        before.nickname@,
                        target,
                        text,
                        true,
                        "encrypted"@,
                        MessageType::PrivMsg,
                        None,
                        before.nickname@,
                        now,
                    ),
                ],
            )
        },
        IrcCommandModel::Me(action) => {
            &&& sent.is_none()
            &&& shown_lines(
                before,
                after,
                seq![
                    line_from(
                        before.nickname@,
                        before.current_channel@,
                        "* "@ + before.nickname@ + " "@ + action,
                        true,
                        "encrypted"@,
                        MessageType::Action,
                        Some(before.current_channel@),
                        before.nickname@,
                        now,
                    ),
                ],
            )
        },
        IrcCommandModel::Topic(topic) => sent.is_none() && topic_set(
            before,
            between,
            after,
            topic,
            now,
        ),
        IrcCommandModel::Whois(nickname) => sent.is_none() && whois_shown(
            before,
            after,
            nickname,
            now,
        ),
        IrcCommandModel::List => sent.is_none() && notified(
            before,
            after,
            channel_list_notices(before.channels@),
            now,
        ),
        IrcCommandModel::Users => sent.is_none() && notified(
            before,
            after,
            user_list_notices(before),
            now,
        ),
        IrcCommandModel::Help => sent.is_none() && notified(before, after, help_notices(), now),
        IrcCommandModel::Quit => {
            &&& sent.is_none()
            &&& notified(before, between, seq!["Disconnecting from server..."@], now)
            &&& after == (ChatState { is_connected: false, ..between })
        },
        IrcCommandModel::Unknown(word) => sent.is_none() && notified(
            before,
            after,
            seq!["Unknown command: "@ + word],
            now,
        ),
        IrcCommandModel::Nothing => sent.is_none() && after == before,
    }
}

impl ChatState {
    /// Shows `message` at `now`.
    pub(crate) fn show(
        &mut self,
        message: Message,
        kind: MessageType,
        channel: Option<String>,
        now: Timestamp,
    )
        requires
            message.timestamp as nat == now.spec_seconds(),
        ensures
            shown_lines(
                *old(self),
                *final(self),
                seq![
                    line_with(
                        message.message_type@,
                        message.sender@,
                        message.recipient@,
                        message.content@,
                        message.encrypted,
                        message.encryption_status@,
                        kind,
                        text_of(channel),
                        old(self).nickname@,
                        now,
                    ),
                ],
            ),
    {
        self.add_message(message, kind, channel, now);
        proof {
            let shown = choose|shown: ChatMessage|
                {
                    &&& shown_as(shown, message, kind, channel, now, old(self).nickname@)
                    &&& self.messages@ == with_message(
                        old(self).messages@,
                        shown,
                        VIEW_CAPACITY as nat,
                    )
                    &&& self.message_history@ == with_message(
                        old(self).message_history@,
                        shown,
                        HISTORY_CAPACITY as nat,
                    )
                };
            lemma_with_message_lines(old(self).messages@, shown, VIEW_CAPACITY as nat);
            lemma_with_message_lines(old(self).message_history@, shown, HISTORY_CAPACITY as nat);
            let line = line_with(
                message.message_type@,
                message.sender@,
                message.recipient@,
                message.content@,
                message.encrypted,
                message.encryption_status@,
                kind,
                text_of(channel),
                old(self).nickname@,
                now,
            );
            assert(line_of(shown) == line);
            lemma_with_lines_one(lines_of(old(self).messages@), line, VIEW_CAPACITY as nat);
            lemma_with_lines_one(
                lines_of(old(self).message_history@),
                line,
                HISTORY_CAPACITY as nat,
            );
        }
    }

    /// Shows a message of `sender` with a fresh identifier.
    pub(crate) fn post(
        &mut self,
        message_type: &str,
        sender: &str,
        recipient: &str,
        content: &str,
        encrypted: bool,
        encryption_status: &str,
        kind: MessageType,
        channel: Option<String>,
        now: Timestamp,
    )
        ensures
            shown_lines(
                *old(self),
                *final(self),
                seq![
                    line_with(
                        message_type@,
                        sender@,
                        recipient@,
                        content@,
                        encrypted,
                        encryption_status@,
                        kind,
                        text_of(channel),
                        old(self).nickname@,
                        now,
                    ),
                ],
            ),
    {
        let message = Message::fresh(
            sender,
            recipient,
            content,
            now.seconds() as u64,
            encrypted,
            message_type,
            encryption_status,
        );
        self.show(message, kind, channel, now);
    }

    /// Shows a notice of the system with text `content` in the current channel.
    pub fn add_system_message(&mut self, content: &str, now: Timestamp)
        ensures
            notified(*old(self), *final(self), seq![content@], now),
    {
        let channel = self.current_channel.clone();
        self.post(
            "irc",
            "System",
            "all",
            content,
            false,
            "unencrypted",
            MessageType::System,
            Some(channel),
            now,
        );
        proof {
            assert(system_lines(
                seq![content@],
                old(self).current_channel@,
                old(self).nickname@,
                now,
            ) =~= seq![
                system_line(content@, old(self).current_channel@, old(self).nickname@, now),
            ]);
        }
    }

    /// Shows one notice of the system for each text of `contents`.
    pub fn add_system_messages(&mut self, contents: &Vec<String>, now: Timestamp)
        ensures
            notified(*old(self), *final(self), names(contents@), now),
    {
        let ghost channel = self.current_channel@;
        let ghost nickname = self.nickname@;
        let ghost all = names(contents@);
        let mut i: usize = 0;
        proof {
            assert(system_lines(all.take(0), channel, nickname, now) =~= Seq::<LineModel>::empty());
        }
        while i < contents.len()
            invariant
                i <= contents@.len(),
                all == names(contents@),
                channel == old(self).current_channel@,
                nickname == old(self).nickname@,
                shown_lines(
                    *old(self),
                    *self,
                    system_lines(all.take(i as int), channel, nickname, now),
                ),
            decreases contents@.len() - i,
        {
            let ghost before = *self;
            self.add_system_message(contents[i].as_str(), now);
            proof {
                let done = system_lines(all.take(i as int), channel, nickname, now);
                let one = system_lines(seq![all[i as int]], channel, nickname, now);
                lemma_shown_lines_then(*old(self), before, *self, done, one);
                assert(all.take(i + 1) =~= all.take(i as int).push(all[i as int]));
                assert(system_lines(all.take(i + 1), channel, nickname, now) =~= done + one);
            }
            i += 1;
        }
        proof {
            assert(all.take(contents@.len() as int) =~= all);
        }
    }

    /// Says `content` in the current channel. Returns the text to send to
    /// the network.
    pub fn send_irc_message(&mut self, content: &str, now: Timestamp) -> (sent: String)
        ensures
            sent@ == content@,
            shown_lines(
                *old(self),
                *final(self),
                seq![
                    line_from(
                        old(self).nickname@,
                        old(self).current_channel@,
                        content@,
                        true,
                        "encrypted"@,
                        MessageType::PrivMsg,
                        Some(old(self).current_channel@),
                        old(self).nickname@,
                        now,
                    ),
                ],
            ),
    {
        let sender = self.nickname.clone();
        let channel = self.current_channel.clone();
        self.post(
            "irc",
            sender.as_str(),
            channel.as_str(),
            content,
            true,
            "encrypted",
            MessageType::PrivMsg,
            Some(self.current_channel.clone()),
            now,
        );
        content.to_owned()
    }

    /// Says `content` to `target` alone. Returns the text to send to the
    /// network.
    pub fn send_private_message(&mut self, target: &str, content: &str, now: Timestamp) -> (sent:
        String)
        ensures
            sent@ == content@,
            shown_lines(
                *old(self),
                *final(self),
                seq![
                    line_from(
                        old(self).nickname@,
                        target@,
                        content@,
                        true,
                        "encrypted"@,
                        MessageType::PrivMsg,
                        None,
                        old(self).nickname@,
                        now,
                    ),
                ],
            ),
    {
        let sender = self.nickname.clone();
        self.post(
            "irc",
            sender.as_str(),
            target,
            content,
            true,
            "encrypted",
            MessageType::PrivMsg,
            None,
            now,
        );
        content.to_owned()
    }

    /// Shows the action `action` of the user in the current channel.
    pub fn send_action_message(&mut self, action: &str, now: Timestamp)
        ensures
            shown_lines(
                *old(self),
                *final(self),
                seq![
                    line_from(
                        old(self).nickname@,
                        old(self).current_channel@,
                        "* "@ + old(self).nickname@ + " "@ + action@,
                        true,
                        "encrypted"@,
                        MessageType::Action,
                        Some(old(self).current_channel@),
                        old(self).nickname@,
                        now,
                    ),
                ],
            ),
    {
        let sender = self.nickname.clone();
        let channel = self.current_channel.clone();
        let mut content = "* ".to_owned();
        content.append(sender.as_str());
        content.append(" ");
        content.append(action);
        self.post(
            "irc",
            sender.as_str(),
            channel.as_str(),
            content.as_str(),
            true,
            "encrypted",
            MessageType::Action,
            Some(self.current_channel.clone()),
            now,
        );
    }

    /// Sets the topic of the current channel to `topic` and says so.
    /// Without a channel of the current name nothing happens.
    pub fn set_channel_topic(&mut self, topic: &str, now: Timestamp)
        ensures
            exists|between: ChatState| #[trigger]
                topic_set(*old(self), between, *final(self), topic@, now),
    {
        let current = self.current_channel.clone();
        match self.channel_position(current.as_str()) {
            Some(index) => {
                self.channels[index].topic = topic.to_owned();
                let ghost between = *self;
                let mut notice = "Topic changed to: ".to_owned();
                notice.append(topic);
                self.add_system_message(notice.as_str(), now);
                proof {
                    assert(!no_channel(old(self).channels@, old(self).current_channel@)) by {
                        assert(old(self).channels@[index as int].name@
                            == old(self).current_channel@);
                    }
                    assert forall|other: int|
                        is_first_channel(
                            old(self).channels@,
                            old(self).current_channel@,
                            other,
                        ) implies other == index by {
                        if other < index {
                            assert(old(self).channels@[other].name@ != current@);
                        } else if other > index {
                            assert(old(self).channels@[index as int].name@ != current@);
                        }
                    }
                    assert(topic_changed(*old(self), between, index as int, topic@));
                    assert(topic_set(*old(self), between, *self, topic@, now));
                }
            },
            None => {
                proof {
                    assert(topic_set(*old(self), *self, *self, topic@, now));
                }
            },
        }
    }

    /// Answers a query for `nickname`: with the notices on the first user of
    /// that nickname, or with the notice that there is none.
    pub fn show_whois(&mut self, nickname: &str, now: Timestamp)
        ensures
            whois_shown(*old(self), *final(self), nickname@, now),
    {
        match self.user_position(nickname) {
            Some(index) => {
                let mut notices: Vec<String> = Vec::new();
                let user = &self.users[index];
                let mut who = "WHOIS ".to_owned();
                who.append(user.nickname.as_str());
                who.append(": ");
                who.append(user.username.as_str());
                who.append("@");
                who.append(user.hostname.as_str());
                who.append(" (");
                who.append(user.realname.as_str());
                who.append(")");
                notices.push(who);
                let mut channels = "Channels: ".to_owned();
                channels.append(join_from(&user.channels, 0, ", ").as_str());
                proof {
                    assert(user.channels@.skip(0) =~= user.channels@);
                }
                notices.push(channels);
                if user.is_away {
                    let mut away = "Away: ".to_owned();
                    match &user.away_message {
                        Some(message) => {
                            away.append(message.as_str());
                        },
                        None => {
                            away.append("No message");
                        },
                    }
                    notices.push(away);
                }
                proof {
                    assert(names(notices@) =~= whois_notices(*user));
                    assert(!no_user(old(self).users@, nickname@)) by {
                        assert(old(self).users@[index as int].nickname@ == nickname@);
                    }
                    assert forall|other: int|
                        is_first_user(old(self).users@, nickname@, other) implies other
                        == index by {
                        if other < index {
                            assert(old(self).users@[other].nickname@ != nickname@);
                        } else if other > index {
                            assert(old(self).users@[index as int].nickname@ != nickname@);
                        }
                    }
                }
                self.add_system_messages(&notices, now);
            },
            None => {
                let mut notice = "No such nick: ".to_owned();
                notice.append(nickname);
                self.add_system_message(notice.as_str(), now);
                proof {
                    assert forall|other: int|
                        is_first_user(old(self).users@, nickname@, other) implies false by {
                        assert(old(self).users@[other].nickname@ != nickname@);
                    }
                }
            },
        }
    }

    /// Lists the channels: a heading, then one notice for each channel with
    /// its name, its count of users and its topic.
    pub fn show_channel_list(&mut self, now: Timestamp)
        ensures
            notified(*old(self), *final(self), channel_list_notices(old(self).channels@), now),
    {
        let mut notices: Vec<String> = Vec::new();
        notices.push("Channel List:".to_owned());
        let ghost wanted = self.channels@.map_values(|channel: Channel| channel_line(channel));
        let mut i: usize = 0;
        proof {
            assert(names(notices@) =~= seq!["Channel List:"@] + wanted.take(0));
        }
        while i < self.channels.len()
            invariant
                i <= self.channels@.len(),
                *self == *old(self),
                wanted == self.channels@.map_values(|channel: Channel| channel_line(channel)),
                names(notices@) == seq!["Channel List:"@] + wanted.take(i as int),
            decreases self.channels@.len() - i,
        {
            let channel = &self.channels[i];
            let mut line = channel.name.clone();
            line.append(" ");
            line.append(number_text(channel.user_count).as_str());
            line.append(" ");
            line.append(channel.topic.as_str());
            let ghost before = names(notices@);
            notices.push(line);
            proof {
                assert(line@ == channel_line(*channel));
                assert(names(notices@) =~= before.push(line@));
                assert(wanted.take(i + 1) =~= wanted.take(i as int).push(wanted[i as int]));
                assert(names(notices@) =~= seq!["Channel List:"@] + wanted.take(i + 1));
            }
            i += 1;
        }
        proof {
            assert(wanted.take(self.channels@.len() as int) =~= wanted);
        }
        self.add_system_messages(&notices, now);
    }

    /// Lists the users of the current channel: a heading, then one notice
    /// for each user.
    pub fn show_user_list(&mut self, now: Timestamp)
        ensures
            notified(*old(self), *final(self), user_list_notices(*old(self)), now),
    {
        let mut notices: Vec<String> = Vec::new();
        let mut heading = "Users in ".to_owned();
        heading.append(self.current_channel.as_str());
        heading.append(":");
        notices.push(heading);
        let current = self.current_channel.clone();
        let members = self.get_channel_users(current.as_str());
        let ghost listed = self.users@.filter(
            |user: User| names(user.channels@).contains(self.current_channel@),
        );
        let ghost wanted = listed.map_values(|user: User| user_line(user));
        let mut i: usize = 0;
        proof {
            assert(members@.map_values(|user: &User| *user) == listed);
            assert(names(notices@) =~= seq![heading@] + wanted.take(0));
        }
        while i < members.len()
            invariant
                i <= members@.len(),
                members@.map_values(|user: &User| *user) == listed,
                wanted == listed.map_values(|user: User| user_line(user)),
                names(notices@) == seq![heading@] + wanted.take(i as int),
            decreases members@.len() - i,
        {
            let user = members[i];
            proof {
                assert(*user == members@.map_values(|user: &User| *user)[i as int]);
            }
            let mut line = if user.is_operator {
                "@".to_owned()
            } else if user.is_voice {
                "+".to_owned()
            } else {
                String::new()
            };
            line.append(user.nickname.as_str());
            let ghost before = names(notices@);
            notices.push(line);
            proof {
                assert(line@ =~= user_line(*user));
                assert(names(notices@) =~= before.push(line@));
                assert(wanted.take(i + 1) =~= wanted.take(i as int).push(wanted[i as int]));
                assert(names(notices@) =~= seq![heading@] + wanted.take(i + 1));
            }
            i += 1;
        }
        proof {
            assert(wanted.take(members@.len() as int) =~= wanted);
        }
        self.add_system_messages(&notices, now);
    }

    /// Explains the commands, one notice each.
    pub fn show_help(&mut self, now: Timestamp)
        ensures
            notified(*old(self), *final(self), help_notices(), now),
    {
        let mut notices: Vec<String> = Vec::new();
        notices.push("Available commands:".to_owned());
        notices.push("/join <channel> - Join a channel".to_owned());
        notices.push("/part [channel] - Leave a channel".to_owned());
        notices.push("/nick <newnick> - Change nickname".to_owned());
        notices.push("/msg <nick> <message> - Send private message".to_owned());
        notices.push("/me <action> - Send action message".to_owned());
        notices.push("/topic <topic> - Set channel topic".to_owned());
        notices.push("/whois <nick> - Get user information".to_owned());
        notices.push("/list - Show channel list".to_owned());
        notices.push("/users - Show users in current channel".to_owned());
        notices.push("/help - Show this help".to_owned());
        notices.push("/quit - Disconnect from server".to_owned());
        proof {
            assert(names(notices@) =~= help_notices());
        }
        self.add_system_messages(&notices, now);
    }

    /// Does what `command` asks for at `now`. Returns the text to send to
    /// the network, if the command sends one.
    pub fn run_command(&mut self, command: &IrcCommand, now: Timestamp) -> (sent: Option<String>)
        requires
            forall|j: int|
                0 <= j < old(self).channels@.len() ==> (#[trigger] old(self).channels@[j]).user_count
                    < usize::MAX,
        ensures
            exists|between: ChatState| #[trigger]
                command_done(*old(self), between, *final(self), command@, now, text_of(sent)),
    {
        reveal(command_done);
        match command {
            IrcCommand::Join(channel) => {
                self.join_channel(channel.as_str());
                let ghost between = *self;
                let mut notice = "Joined channel ".to_owned();
                notice.append(channel.as_str());
                self.add_system_message(notice.as_str(), now);
                proof {
                    assert(command_done(*old(self), between, *self, command@, now, None));
                }
                None
            },
            IrcCommand::Part(Some(channel)) => {
                self.part_channel(channel.as_str());
                let ghost between = *self;
                let mut notice = "Left channel ".to_owned();
                notice.append(channel.as_str());
                self.add_system_message(notice.as_str(), now);
                proof {
                    assert(command_done(*old(self), between, *self, command@, now, None));
                }
                None
            },
            IrcCommand::Part(None) => {
                let current = self.current_channel.clone();
                self.part_channel(current.as_str());
                let ghost between = *self;
                let mut notice = "Left channel ".to_owned();
                notice.append(current.as_str());
                self.add_system_message(notice.as_str(), now);
                proof {
                    assert(command_done(*old(self), between, *self, command@, now, None));
                }
                None
            },
            IrcCommand::Nick(nickname) => {
                let old_nick = self.nickname.clone();
                self.change_nickname(nickname.as_str());
                let ghost between = *self;
                let mut notice = "Nickname changed from ".to_owned();
                notice.append(old_nick.as_str());
                notice.append(" to ");
                notice.append(nickname.as_str());
                self.add_system_message(notice.as_str(), now);
                proof {
                    assert(command_done(*old(self), between, *self, command@, now, None));
                }
                None
            },
            IrcCommand::Msg(target, text) => {
                let sent = self.send_private_message(target.as_str(), text.as_str(), now);
                proof {
                    assert(command_done(*old(self), *self, *self, command@, now, Some(sent@)));
                }
                Some(sent)
            },
            IrcCommand::Me(action) => {
                self.send_action_message(action.as_str(), now);
                proof {
                    assert(command_done(*old(self), *self, *self, command@, now, None));
                }
                None
            },
            IrcCommand::Topic(topic) => {
                self.set_channel_topic(topic.as_str(), now);
                proof {
                    let between = choose|between: ChatState| #[trigger]
                        topic_set(*old(self), between, *self, topic@, now);
                    assert(command_done(*old(self), between, *self, command@, now, None));
                }
                None
            },
            IrcCommand::Whois(nickname) => {
                self.show_whois(nickname.as_str(), now);
                proof {
                    assert(command_done(*old(self), *self, *self, command@, now, None));
                }
                None
            },
            IrcCommand::List => {
                self.show_channel_list(now);
                proof {
                    assert(command_done(*old(self), *self, *self, command@, now, None));
                }
                None
            },
            IrcCommand::Users => {
                self.show_user_list(now);
                proof {
                    assert(command_done(*old(self), *self, *self, command@, now, None));
                }
                None
            },
            IrcCommand::Help => {
                self.show_help(now);
                proof {
                    assert(command_done(*old(self), *self, *self, command@, now, None));
                }
                None
            },
            IrcCommand::Quit => {
                self.add_system_message("Disconnecting from server...", now);
                let ghost between = *self;
                self.is_connected = false;
                proof {
                    assert(command_done(*old(self), between, *self, command@, now, None));
                }
                None
            },
            IrcCommand::Unknown(word) => {
                let mut notice = "Unknown command: ".to_owned();
                notice.append(word.as_str());
                self.add_system_message(notice.as_str(), now);
                proof {
                    assert(command_done(*old(self), *self, *self, command@, now, None));
                }
                None
            },
            IrcCommand::Nothing => {
                proof {
                    assert(command_done(*old(self), *self, *self, command@, now, None));
                }
                None
            },
        }
    }

    /// Reads the line `command` as a command and does what it asks for.
    /// Returns the text to send to the network, if the command sends one.
    pub fn handle_irc_command(&mut self, command: &str, now: Timestamp) -> (sent: Option<String>)
        requires
            forall|j: int|
                0 <= j < old(self).channels@.len() ==> (#[trigger] old(self).channels@[j]).user_count
                    < usize::MAX,
        ensures
            exists|between: ChatState| #[trigger]
                command_done(
                    *old(self),
                    between,
                    *final(self),
                    command_of(whitespace_split(command@)),
                    now,
                    text_of(sent),
                ),
    {
        let parsed = parse_command(command);
        self.run_command(&parsed, now)
    }
}

} // verus!
