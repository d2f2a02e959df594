use ghostwire::timestamp::Timestamp;
use ghostwire::tui::chat::{ChatState, MessageType};
use ghostwire::tui::irc::{parse_command, read_command, IrcCommand};

fn now() -> Timestamp {
    Timestamp::new(1_700_000_000, 0).unwrap()
}

fn words(items: &[&str]) -> Vec<String> {
    items.iter().map(|item| item.to_string()).collect()
}

fn contents_from(chat: &ChatState, from: usize) -> Vec<String> {
    chat.messages.iter().skip(from).map(|m| m.message.content.clone()).collect()
}

#[test]
fn lines_are_read_as_commands() {
    assert!(matches!(parse_command("/join #a"), IrcCommand::Join(c) if c == "#a"));
    assert!(matches!(parse_command("/j   #a   extra"), IrcCommand::Join(c) if c == "#a"));
    assert!(matches!(parse_command("/join"), IrcCommand::Nothing));
    assert!(matches!(parse_command("/part #a"), IrcCommand::Part(Some(c)) if c == "#a"));
    assert!(matches!(parse_command("/leave"), IrcCommand::Part(None)));
    assert!(matches!(parse_command("/nick neo"), IrcCommand::Nick(n) if n == "neo"));
    assert!(matches!(parse_command("/nick"), IrcCommand::Nothing));
    assert!(
        matches!(parse_command("/msg bob  see   you\tlater"), IrcCommand::Msg(t, m) if t == "bob" && m == "see you later")
    );
    assert!(matches!(parse_command("/m bob hi"), IrcCommand::Msg(t, m) if t == "bob" && m == "hi"));
    assert!(matches!(parse_command("/msg bob"), IrcCommand::Nothing));
    assert!(matches!(parse_command("/me waves  hello"), IrcCommand::Me(a) if a == "waves hello"));
    assert!(matches!(parse_command("/me"), IrcCommand::Nothing));
    assert!(matches!(parse_command("/topic a new topic"), IrcCommand::Topic(t) if t == "a new topic"));
    assert!(matches!(parse_command("/topic"), IrcCommand::Nothing));
    assert!(matches!(parse_command("/whois alice"), IrcCommand::Whois(n) if n == "alice"));
    assert!(matches!(parse_command("/whois"), IrcCommand::Nothing));
    assert!(matches!(parse_command("/list"), IrcCommand::List));
    assert!(matches!(parse_command("/users now"), IrcCommand::Users));
    assert!(matches!(parse_command("  /help"), IrcCommand::Help));
    assert!(matches!(parse_command("/quit"), IrcCommand::Quit));
    assert!(matches!(parse_command("/dance fast"), IrcCommand::Unknown(w) if w == "/dance"));
    assert!(matches!(parse_command("hello"), IrcCommand::Unknown(w) if w == "hello"));
    assert!(matches!(parse_command("   "), IrcCommand::Nothing));
    assert!(matches!(parse_command(""), IrcCommand::Nothing));
    assert!(matches!(read_command(&words(&["/JOIN", "#a"])), IrcCommand::Unknown(w) if w == "/JOIN"));
    assert!(matches!(read_command(&words(&[])), IrcCommand::Nothing));
}

#[test]
fn join_and_part_commands() {
    let mut chat = ChatState::new(now());
    assert!(chat.handle_irc_command("/join #tech", now()).is_none());
    assert_eq!(chat.current_channel, "#tech");
    assert!(chat.channels[2].is_joined);
    let last = chat.messages.back().unwrap();
    assert_eq!(last.message.content, "Joined channel #tech");
    assert_eq!(last.message.sender, "System");
    assert_eq!(last.message.recipient, "all");
    assert!(!last.message.encrypted);
    assert_eq!(last.message.message_type, "irc");
    assert_eq!(last.message.encryption_status, "unencrypted");
    assert_eq!(last.message_type, MessageType::System);
    assert_eq!(last.channel, Some("#tech".to_string()));
    assert_eq!(last.display_name, "System");
    assert!(!last.is_own);

    chat.handle_irc_command("/join tech", now());
    assert_eq!(chat.messages.back().unwrap().message.content, "Joined channel tech");
    assert_eq!(chat.current_channel, "#tech");

    chat.handle_irc_command("/part", now());
    assert_eq!(chat.messages.back().unwrap().message.content, "Left channel #tech");
    assert_eq!(chat.current_channel, "#ghostwire");
    assert_eq!(chat.messages.back().unwrap().channel, Some("#ghostwire".to_string()));
    chat.handle_irc_command("/leave #general", now());
    assert_eq!(chat.messages.back().unwrap().message.content, "Left channel #general");
}

#[test]
fn nick_topic_and_quit_commands() {
    let mut chat = ChatState::new(now());
    chat.handle_irc_command("/nick neo", now());
    assert_eq!(chat.nickname, "neo");
    assert_eq!(
        chat.messages.back().unwrap().message.content,
        "Nickname changed from ghostwire_user to neo"
    );
    chat.handle_irc_command("/topic all about ghosts", now());
    assert_eq!(chat.channels[0].topic, "all about ghosts");
    assert_eq!(chat.messages.back().unwrap().message.content, "Topic changed to: all about ghosts");
    let before = chat.messages.len();
    chat.current_channel = "#void".to_string();
    chat.handle_irc_command("/topic nothing", now());
    assert_eq!(chat.messages.len(), before);
    chat.handle_irc_command("/quit", now());
    assert!(!chat.is_connected);
    assert_eq!(chat.messages.back().unwrap().message.content, "Disconnecting from server...");
    chat.handle_irc_command("/frobnicate", now());
    assert_eq!(chat.messages.back().unwrap().message.content, "Unknown command: /frobnicate");
    let before = chat.messages.len();
    chat.handle_irc_command("/whois", now());
    assert_eq!(chat.messages.len(), before);
}

#[test]
fn messages_and_actions() {
    let mut chat = ChatState::new(now());
    let sent = chat.handle_irc_command("/msg bob hello  there", now());
    assert_eq!(sent, Some("hello there".to_string()));
    let last = chat.messages.back().unwrap();
    assert_eq!(last.message.content, "hello there");
    assert_eq!(last.message.sender, "ghostwire_user");
    assert_eq!(last.message.recipient, "bob");
    assert!(last.message.encrypted);
    assert_eq!(last.message.encryption_status, "encrypted");
    assert_eq!(last.message_type, MessageType::PrivMsg);
    assert_eq!(last.channel, None);
    assert!(last.is_own);

    assert!(chat.handle_irc_command("/me waves", now()).is_none());
    let last = chat.messages.back().unwrap();
    assert_eq!(last.message.content, "* ghostwire_user waves");
    assert_eq!(last.message.recipient, "#ghostwire");
    assert_eq!(last.message_type, MessageType::Action);
    assert_eq!(last.channel, Some("#ghostwire".to_string()));

    let sent = chat.send_irc_message("good morning", now());
    assert_eq!(sent, "good morning");
    let last = chat.messages.back().unwrap();
    assert_eq!(last.message.content, "good morning");
    assert_eq!(last.message.recipient, "#ghostwire");
    assert_eq!(last.message_type, MessageType::PrivMsg);
    assert_eq!(last.message.timestamp, 1_700_000_000);
}

#[test]
fn whois_command() {
    let mut chat = ChatState::new(now());
    let before = chat.messages.len();
    chat.handle_irc_command("/whois alice", now());
    assert_eq!(
        contents_from(&chat, before),
        vec![
            "WHOIS alice: alice@node1.local (Alice)".to_string(),
            "Channels: #ghostwire, #general, #tech".to_string(),
        ]
    );
    let before = chat.messages.len();
    chat.show_whois("bob", now());
    assert_eq!(
        contents_from(&chat, before),
        vec![
            "WHOIS bob: bob@node2.local (Bob)".to_string(),
            "Channels: #ghostwire, #general".to_string(),
            "Away: Gone fishing".to_string(),
        ]
    );
    chat.users[2].away_message = None;
    chat.show_whois("bob", now());
    assert_eq!(chat.messages.back().unwrap().message.content, "Away: No message");
    chat.show_whois("carol", now());
    assert_eq!(chat.messages.back().unwrap().message.content, "No such nick: carol");
}

#[test]
fn list_and_users_commands() {
    let mut chat = ChatState::new(now());
    let before = chat.messages.len();
    chat.handle_irc_command("/list", now());
    assert_eq!(
        contents_from(&chat, before),
        vec![
            "Channel List:".to_string(),
            "#ghostwire 3 Main GhostWire discussion channel".to_string(),
            "#general 2 General discussion".to_string(),
            "#tech 1 Technical discussions".to_string(),
        ]
    );
    let before = chat.messages.len();
    chat.users[2].is_voice = true;
    chat.handle_irc_command("/users", now());
    assert_eq!(
        contents_from(&chat, before),
        vec![
            "Users in #ghostwire:".to_string(),
            "ghostwire_user".to_string(),
            "@alice".to_string(),
            "+bob".to_string(),
        ]
    );
}

#[test]
fn help_command() {
    let mut chat = ChatState::new(now());
    let before = chat.messages.len();
    chat.handle_irc_command("/help", now());
    assert_eq!(
        contents_from(&chat, before),
        vec![
            "Available commands:",
            "/join <channel> - Join a channel",
            "/part [channel] - Leave a channel",
            "/nick <newnick> - Change nickname",
            "/msg <nick> <message> - Send private message",
            "/me <action> - Send action message",
            "/topic <topic> - Set channel topic",
            "/whois <nick> - Get user information",
            "/list - Show channel list",
            "/users - Show users in current channel",
            "/help - Show this help",
            "/quit - Disconnect from server",
        ]
    );
    assert_eq!(chat.message_history.len(), 19);
}

#[test]
fn notices_in_a_row() {
    let mut chat = ChatState::new(now());
    chat.add_system_messages(&words(&["one", "two"]), now());
    chat.add_system_message("three", now());
    assert_eq!(contents_from(&chat, 7), vec!["one", "two", "three"]);
    chat.send_private_message("alice", "psst", now());
    chat.send_action_message("nods", now());
    chat.set_channel_topic("t", now());
    chat.show_channel_list(now());
    chat.show_user_list(now());
    chat.show_help(now());
    assert_eq!(chat.channels[0].topic, "t");
}
