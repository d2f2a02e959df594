use ghostwire::message::Message;
use ghostwire::timestamp::Timestamp;
use ghostwire::tui::chat::{
    format_message, ChatMessage, ChatState, EncryptionStatus, MessageType, User,
    HISTORY_CAPACITY, VIEW_CAPACITY,
};

fn now() -> Timestamp {
    Timestamp::new(1431648000 + 9 * 3600 + 5 * 60, 0).unwrap()
}

fn message(sender: &str, content: &str) -> Message {
    Message {
        id: 1,
        sender: sender.to_string(),
        recipient: "#ghostwire".to_string(),
        content: content.to_string(),
        timestamp: 10,
        encrypted: true,
        message_type: "irc".to_string(),
        encryption_status: "encrypted".to_string(),
    }
}

fn user(nickname: &str, channels: &[&str]) -> User {
    User {
        nickname: nickname.to_string(),
        username: nickname.to_string(),
        hostname: "host".to_string(),
        realname: "Real".to_string(),
        is_operator: false,
        is_voice: false,
        is_away: false,
        away_message: None,
        last_seen: now(),
        channels: channels.iter().map(|c| c.to_string()).collect(),
    }
}

#[test]
fn chat_opens_with_samples() {
    let chat = ChatState::new(now());
    assert_eq!(chat.current_channel, "#ghostwire");
    assert_eq!(chat.nickname, "ghostwire_user");
    assert!(chat.is_connected);
    assert_eq!(chat.input_buffer, "");
    assert_eq!(chat.cursor_position, 0);
    assert_eq!(chat.server_info.name, "GhostWire IRC");
    assert_eq!(chat.server_info.version, "1.0.0");
    assert_eq!(chat.server_info.uptime, 3600);
    assert_eq!(chat.server_info.user_count, 5);
    assert_eq!(chat.server_info.channel_count, 3);
    assert_eq!(chat.server_info.max_users, 1000);
    assert_eq!(chat.server_info.motd.len(), 3);
    assert_eq!(chat.server_info.motd[2], "Type /help for available commands");
    let names: Vec<&str> = chat.channels.iter().map(|c| c.name.as_str()).collect();
    assert_eq!(names, vec!["#ghostwire", "#general", "#tech"]);
    assert_eq!(chat.channels[0].topic, "Main GhostWire discussion channel");
    assert_eq!(chat.channels[0].user_count, 3);
    assert!(chat.channels[0].is_joined);
    assert_eq!(chat.channels[0].users, vec!["ghostwire_user", "alice", "bob"]);
    assert!(!chat.channels[1].is_joined);
    assert_eq!(chat.channels[1].users, vec!["alice", "bob"]);
    assert_eq!(chat.channels[2].user_count, 1);
    let nicknames: Vec<&str> = chat.users.iter().map(|u| u.nickname.as_str()).collect();
    assert_eq!(nicknames, vec!["ghostwire_user", "alice", "bob"]);
    assert!(chat.users[1].is_operator);
    assert!(chat.users[1].is_voice);
    assert!(chat.users[2].is_away);
    assert_eq!(chat.users[2].away_message, Some("Gone fishing".to_string()));
    assert_eq!(chat.users[1].channels, vec!["#ghostwire", "#general", "#tech"]);
    assert_eq!(chat.messages.len(), 7);
    assert_eq!(chat.message_history.len(), 7);
    assert_eq!(chat.messages[0].message.sender, "System");
    assert_eq!(chat.messages[0].message.recipient, "all");
    assert_eq!(chat.messages[0].channel, None);
    assert_eq!(chat.messages[2].message.content, "Hello everyone! 👋");
    assert_eq!(chat.messages[2].channel, Some("#ghostwire".to_string()));
    assert!(chat.messages[3].is_own);
    assert!(!chat.messages[4].is_own);
    assert_eq!(chat.messages[5].message_type, MessageType::Join);
    assert_eq!(chat.messages[5].message.recipient, "#tech");
    assert_eq!(chat.messages[6].message_type, MessageType::Topic);
    for i in 0..7 {
        assert_eq!(chat.messages[i].message.id, chat.message_history[i].message.id);
        assert_eq!(chat.messages[i].message.timestamp, now().seconds() as u64);
        assert!(chat.messages[i].message.encrypted);
        assert_eq!(chat.messages[i].message.message_type, "irc");
        assert_eq!(chat.messages[i].encryption_status, EncryptionStatus::Encrypted);
    }
    assert_ne!(chat.messages[0].message.id, chat.messages[1].message.id);
}

#[test]
fn messages_are_shown_and_kept() {
    let mut chat = ChatState::new(now());
    chat.add_message(message("ghostwire_user", "mine"), MessageType::PrivMsg, None, now());
    chat.add_message(
        message("alice", "hers"),
        MessageType::Notice,
        Some("#general".to_string()),
        now(),
    );
    assert_eq!(chat.messages.len(), 9);
    let mine = &chat.messages[7];
    assert!(mine.is_own);
    assert_eq!(mine.display_name, "ghostwire_user");
    assert_eq!(mine.channel, None);
    let hers = &chat.messages[8];
    assert!(!hers.is_own);
    assert_eq!(hers.message_type, MessageType::Notice);
    assert_eq!(hers.channel, Some("#general".to_string()));
    assert_eq!(chat.message_history[8].message.content, "hers");
}

#[test]
fn view_and_history_are_bounded() {
    let mut chat = ChatState::new(now());
    for i in 0..1200 {
        chat.add_message(message("alice", &format!("m{}", i)), MessageType::PrivMsg, None, now());
    }
    assert_eq!(chat.messages.len(), VIEW_CAPACITY);
    assert_eq!(chat.message_history.len(), HISTORY_CAPACITY);
    assert_eq!(chat.messages[0].message.content, "m1100");
    assert_eq!(chat.messages[99].message.content, "m1199");
    assert_eq!(chat.message_history[0].message.content, "m200");
    assert_eq!(VIEW_CAPACITY, 100);
    assert_eq!(HISTORY_CAPACITY, 1000);
}

#[test]
fn input_line_editing() {
    let mut chat = ChatState::new(now());
    for c in "helo".chars() {
        chat.add_input_char(c);
    }
    assert_eq!(chat.get_input(), "helo");
    assert_eq!(chat.cursor_position, 4);
    chat.move_cursor_left();
    assert_eq!(chat.cursor_position, 3);
    chat.add_input_char('l');
    assert_eq!(chat.get_input(), "hello");
    assert_eq!(chat.cursor_position, 4);
    chat.move_cursor_right();
    chat.move_cursor_right();
    assert_eq!(chat.cursor_position, 5);
    chat.delete_char();
    assert_eq!(chat.get_input(), "hell");
    assert_eq!(chat.cursor_position, 4);
    chat.cursor_position = 1;
    chat.delete_char();
    assert_eq!(chat.get_input(), "ell");
    assert_eq!(chat.cursor_position, 0);
    chat.delete_char();
    chat.move_cursor_left();
    assert_eq!(chat.get_input(), "ell");
    assert_eq!(chat.cursor_position, 0);
    chat.cursor_position = 9;
    chat.delete_char();
    assert_eq!(chat.get_input(), "ell");
    chat.add_input_char('!');
    assert_eq!(chat.get_input(), "ell!");
    assert_eq!(chat.cursor_position, 10);
    chat.clear_input();
    assert_eq!(chat.get_input(), "");
    assert_eq!(chat.cursor_position, 0);
}

#[test]
fn input_line_counts_characters() {
    let mut chat = ChatState::new(now());
    for c in "añb".chars() {
        chat.add_input_char(c);
    }
    chat.move_cursor_left();
    chat.add_input_char('é');
    assert_eq!(chat.get_input(), "añéb");
    chat.delete_char();
    chat.delete_char();
    assert_eq!(chat.get_input(), "ab");
    assert_eq!(chat.cursor_position, 1);
}

#[test]
fn joining_channels() {
    let mut chat = ChatState::new(now());
    chat.join_channel("general");
    assert_eq!(chat.current_channel, "#ghostwire");
    assert_eq!(chat.channels.len(), 3);
    chat.join_channel("#general");
    assert_eq!(chat.current_channel, "#general");
    assert!(chat.channels[1].is_joined);
    assert_eq!(chat.channels[1].user_count, 3);
    assert_eq!(chat.channels[1].users, vec!["alice", "bob", "ghostwire_user"]);
    chat.join_channel("#ghostwire");
    assert_eq!(chat.channels[0].user_count, 4);
    assert_eq!(chat.channels[0].users, vec!["ghostwire_user", "alice", "bob"]);
    chat.join_channel("#new");
    assert_eq!(chat.channels.len(), 4);
    assert_eq!(chat.channels[3].name, "#new");
    assert_eq!(chat.channels[3].topic, "");
    assert_eq!(chat.channels[3].user_count, 1);
    assert!(chat.channels[3].is_joined);
    assert_eq!(chat.channels[3].users, vec!["ghostwire_user"]);
    assert!(chat.channels[3].messages.is_empty());
    assert_eq!(chat.current_channel, "#new");
}

#[test]
fn leaving_channels() {
    let mut chat = ChatState::new(now());
    chat.join_channel("#tech");
    chat.part_channel("#tech");
    assert!(!chat.channels[2].is_joined);
    assert_eq!(chat.channels[2].user_count, 1);
    assert_eq!(chat.channels[2].users, vec!["alice"]);
    assert_eq!(chat.current_channel, "#ghostwire");
    chat.part_channel("#general");
    assert_eq!(chat.channels[1].user_count, 1);
    assert_eq!(chat.current_channel, "#ghostwire");
    chat.part_channel("#ghostwire");
    assert!(!chat.channels[0].is_joined);
    assert_eq!(chat.channels[0].users, vec!["alice", "bob"]);
    // no channel is joined any more: the current one stays
    assert_eq!(chat.current_channel, "#ghostwire");
    chat.channels[1].user_count = 0;
    chat.part_channel("#general");
    assert_eq!(chat.channels[1].user_count, 0);
    chat.part_channel("#nowhere");
    assert_eq!(chat.channels.len(), 3);
}

#[test]
fn changing_the_nickname() {
    let mut chat = ChatState::new(now());
    chat.change_nickname("ghost");
    assert_eq!(chat.nickname, "ghost");
    assert_eq!(chat.channels[0].users, vec!["ghost", "alice", "bob"]);
    assert_eq!(chat.channels[1].users, vec!["alice", "bob"]);
    assert_eq!(chat.users[0].nickname, "ghost");
    assert_eq!(chat.users[0].username, "user");
    assert_eq!(chat.users[1].nickname, "alice");
}

#[test]
fn users_of_the_chat() {
    let mut chat = ChatState::new(now());
    assert_eq!(chat.find_user("bob").unwrap().hostname, "node2.local");
    assert!(chat.find_user("carol").is_none());
    chat.add_user(user("carol", &["#tech"]));
    chat.add_user(user("alice", &["#nowhere"]));
    assert_eq!(chat.users.len(), 4);
    assert_eq!(chat.users[1].channels.len(), 3);
    let tech: Vec<&str> =
        chat.get_channel_users("#tech").iter().map(|u| u.nickname.as_str()).collect();
    assert_eq!(tech, vec!["alice", "carol"]);
    assert!(chat.get_channel_users("#none").is_empty());
    chat.remove_user("alice");
    let left: Vec<&str> = chat.users.iter().map(|u| u.nickname.as_str()).collect();
    assert_eq!(left, vec!["ghostwire_user", "bob", "carol"]);
    assert_eq!(chat.channels[0].users, vec!["ghostwire_user", "bob"]);
    assert_eq!(chat.channels[1].users, vec!["bob"]);
    assert!(chat.channels[2].users.is_empty());
    assert_eq!(chat.channels[2].user_count, 1);
}

#[test]
fn messages_of_the_current_channel() {
    let mut chat = ChatState::new(now());
    let shown: Vec<&str> = chat
        .get_current_channel_messages()
        .iter()
        .map(|m| m.message.sender.as_str())
        .collect();
    assert_eq!(shown, vec!["alice", "ghostwire_user", "bob", "System"]);
    chat.current_channel = "#tech".to_string();
    assert_eq!(chat.get_current_channel_messages().len(), 1);
    chat.current_channel = "#none".to_string();
    assert!(chat.get_current_channel_messages().is_empty());
}

#[test]
fn lines_of_messages() {
    let base = |kind: MessageType, channel: Option<&str>| ChatMessage {
        message: message("alice", "text"),
        display_name: "alice".to_string(),
        is_own: false,
        encryption_status: EncryptionStatus::Encrypted,
        message_type: kind,
        timestamp: now(),
        channel: channel.map(|c| c.to_string()),
    };
    assert_eq!(format_message(&base(MessageType::PrivMsg, None)), "[09:05] <alice> text");
    assert_eq!(format_message(&base(MessageType::Notice, None)), "[09:05] -alice- text");
    assert_eq!(
        format_message(&base(MessageType::Join, Some("#tech"))),
        "[09:05] *** alice has joined #tech"
    );
    assert_eq!(format_message(&base(MessageType::Join, None)), "[09:05] *** alice has joined ");
    assert_eq!(
        format_message(&base(MessageType::Part, Some("#tech"))),
        "[09:05] *** alice has left #tech"
    );
    assert_eq!(format_message(&base(MessageType::Quit, None)), "[09:05] *** alice has quit IRC");
    assert_eq!(
        format_message(&base(MessageType::Nick, None)),
        "[09:05] *** alice is now known as text"
    );
    assert_eq!(format_message(&base(MessageType::Mode, None)), "[09:05] *** alice sets mode text");
    assert_eq!(
        format_message(&base(MessageType::Topic, None)),
        "[09:05] *** alice changes topic to: text"
    );
    assert_eq!(
        format_message(&base(MessageType::Kick, None)),
        "[09:05] *** text has been kicked by alice"
    );
    assert_eq!(
        format_message(&base(MessageType::Ban, None)),
        "[09:05] *** text has been banned by alice"
    );
    assert_eq!(format_message(&base(MessageType::System, None)), "[09:05] *** text");
    assert_eq!(format_message(&base(MessageType::Action, None)), "[09:05] alice text");
    assert_eq!(format_message(&base(MessageType::Ctcp, None)), "[09:05] CTCP alice: text");
    let copy = base(MessageType::Ctcp, Some("#a")).duplicate();
    assert_eq!(copy.channel, Some("#a".to_string()));
    assert_eq!(copy.message.content, "text");
}
