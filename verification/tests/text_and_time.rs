use ghostwire::text::{
    copy_of, count_lines, join_from, number_text, position_of, starts_with_char, without,
    without_last,
};
use ghostwire::message::Message;
use ghostwire::timestamp::{Timestamp, DAY_SECONDS, MAX_SECONDS};
use ghostwire::web::{delivery_status, ping_latency, ApiResponse, IdentityInfo, KeyInfo};

fn strings(items: &[&str]) -> Vec<String> {
    items.iter().map(|item| item.to_string()).collect()
}

#[test]
fn numbers_in_decimal() {
    assert_eq!(number_text(0), "0");
    assert_eq!(number_text(7), "7");
    assert_eq!(number_text(10), "10");
    assert_eq!(number_text(3001), "3001");
    assert_eq!(number_text(1234567890), "1234567890");
    assert_eq!(number_text(usize::MAX), usize::MAX.to_string());
}

#[test]
fn joining_from_a_position() {
    let words = strings(&["/msg", "bob", "see", "you", "later"]);
    assert_eq!(join_from(&words, 2, " "), "see you later");
    assert_eq!(join_from(&words, 0, ", "), "/msg, bob, see, you, later");
    assert_eq!(join_from(&words, 4, " "), "later");
    assert_eq!(join_from(&words, 5, " "), "");
    assert_eq!(join_from(&Vec::new(), 0, " "), "");
}

#[test]
fn searching_lists_of_strings() {
    let list = strings(&["a", "b", "a", "c"]);
    assert_eq!(position_of(&list, "a"), Some(0));
    assert_eq!(position_of(&list, "c"), Some(3));
    assert_eq!(position_of(&list, "d"), None);
    assert_eq!(without(&list, "a"), strings(&["b", "c"]));
    assert_eq!(without(&list, "d"), list);
    assert_eq!(copy_of(&list), list);
}

#[test]
fn first_and_last_characters() {
    assert!(starts_with_char("#room", '#'));
    assert!(!starts_with_char("room", '#'));
    assert!(!starts_with_char("", '#'));
    assert!(starts_with_char("é", 'é'));
    assert_eq!(without_last("abc"), "ab");
    assert_eq!(without_last("é"), "");
    assert_eq!(without_last("aé"), "a");
    assert_eq!(without_last(""), "");
}

#[test]
fn timestamps_are_within_the_calendar() {
    assert!(Timestamp::new(0, 0).is_some());
    assert!(Timestamp::new(MAX_SECONDS, 999_999_999).is_some());
    assert!(Timestamp::new(MAX_SECONDS + 1, 0).is_none());
    assert!(Timestamp::new(-1, 0).is_none());
    assert!(Timestamp::new(0, 1_000_000_000).is_none());
    let time = Timestamp::new(1431648000, 5).unwrap();
    assert_eq!(time.seconds(), 1431648000);
    assert_eq!(time.nanos(), 5);
    assert_eq!(Timestamp::epoch().seconds(), 0);
    assert_eq!(Timestamp::epoch().nanos(), 0);
    assert_eq!(MAX_SECONDS, 253_402_300_799);
}

#[test]
fn timestamps_as_text() {
    let time = Timestamp::new(1431648000, 0).unwrap();
    assert_eq!(time.display(), "2015-05-15 00:00:00 UTC");
    assert_eq!(time.date_time(), "2015-05-15 00:00:00");
    assert_eq!(time.hour_minute(), "00:00");
    let later = Timestamp::new(1431648000 + 13 * 3600 + 7 * 60 + 9, 250_000_000).unwrap();
    assert_eq!(later.display(), "2015-05-15 13:07:09.250 UTC");
    assert_eq!(later.date_time(), "2015-05-15 13:07:09");
    assert_eq!(later.hour_minute(), "13:07");
    assert_eq!(Timestamp::epoch().display(), "1970-01-01 00:00:00 UTC");
    let last = Timestamp::new(MAX_SECONDS, 0).unwrap();
    assert_eq!(last.date_time(), "9999-12-31 23:59:59");
}

#[test]
fn keys_are_reported_in_base64() {
    let info = KeyInfo::new(&b"hello world~".to_vec(), "key-1".to_string());
    assert_eq!(info.public_key, "aGVsbG8gd29ybGR+");
    assert_eq!(info.key_id, "key-1");
    assert_eq!(KeyInfo::new(&vec![], "k".to_string()).public_key, "");
    assert_eq!(KeyInfo::new(&vec![0xff], "k".to_string()).public_key, "/w==");
    let identity = IdentityInfo::new("node-1".to_string(), &vec![1, 2, 3], "key-2".to_string());
    assert_eq!(identity.id, "node-1");
    assert_eq!(identity.username, "GhostWire User");
    assert_eq!(identity.public_key, "AQID");
    assert_eq!(identity.key_id, "key-2");
}

#[test]
fn answers_are_enveloped() {
    let ok = ApiResponse::ok(5);
    assert!(ok.success);
    assert_eq!(ok.data, Some(5));
    assert_eq!(ok.error, None);
    let failed: ApiResponse<u8> = ApiResponse::failed("Peer not connected".to_string());
    assert!(!failed.success);
    assert_eq!(failed.data, None);
    assert_eq!(failed.error, Some("Peer not connected".to_string()));
    let empty: ApiResponse<u8> = ApiResponse::empty();
    assert!(empty.success);
    assert_eq!(empty.data, None);
    assert_eq!(empty.error, None);
}

#[test]
fn delivery_and_latency() {
    assert_eq!(delivery_status("broadcast"), "broadcast_sent");
    assert_eq!(delivery_status("alice"), "delivered");
    assert_eq!(ping_latency(0), 20);
    assert_eq!(ping_latency(199), 219);
    assert_eq!(ping_latency(200), 20);
    assert_eq!(ping_latency(1_700_000_000_123), 143);
}

#[test]
fn lines_are_counted() {
    assert_eq!(count_lines(""), 0);
    assert_eq!(count_lines("one"), 1);
    assert_eq!(count_lines("one\n"), 1);
    assert_eq!(count_lines("one\ntwo\r\nthree"), 3);
    assert_eq!(count_lines("\n\n"), 2);
}

#[test]
fn timestamps_in_rfc3339() {
    let time = Timestamp::new(1431648000, 0).unwrap();
    assert_eq!(time.rfc3339(), "2015-05-15T00:00:00+00:00");
    let fine = Timestamp::new(1431648000, 120_000_000).unwrap();
    assert_eq!(fine.rfc3339(), "2015-05-15T00:00:00.120+00:00");
}

#[test]
fn days_are_added() {
    let time = Timestamp::new(1431648000, 7).unwrap();
    let later = time.plus_days(90).unwrap();
    assert_eq!(later.seconds(), 1431648000 + 90 * 86_400);
    assert_eq!(later.nanos(), 7);
    assert_eq!(later.rfc3339(), "2015-08-13T00:00:00.000000007+00:00");
    assert_eq!(time.plus_days(0).unwrap().seconds(), 1431648000);
    let last_day = Timestamp::new(MAX_SECONDS - DAY_SECONDS, 0).unwrap();
    assert_eq!(last_day.plus_days(1).unwrap().seconds(), MAX_SECONDS);
    assert!(last_day.plus_days(2).is_none());
    assert!(Timestamp::new(MAX_SECONDS - DAY_SECONDS + 1, 0).unwrap().plus_days(1).is_none());
    assert!(time.plus_days(u32::MAX).is_none());
    assert_eq!(DAY_SECONDS, 86_400);
}

#[test]
fn identifiers_as_text() {
    let mut message = Message::fresh("a", "b", "c", 1, false, "text", "unknown");
    message.id = 0x67e55044_10b1_426f_9247_bb680e5fe0c8;
    assert_eq!(message.id_text(), "67e55044-10b1-426f-9247-bb680e5fe0c8");
    message.id = 0;
    assert_eq!(message.id_text(), "00000000-0000-0000-0000-000000000000");
}
