use lab_presence::directory::{DirectoryError, MemberDirectory, User, UserId};
use lab_presence::hex::to_hex_upper;
use lab_presence::presence::{LabPresence, PresenceError};
use lab_presence::text::{drop_prefix, join_text, same_text, text_starts_with};
use lab_presence::token::encode_token;

#[test]
fn new_presence_holds_its_values() {
    let p = LabPresence::new("inLab".to_string(), Some("working".to_string()), 100);
    assert_eq!(p.presence(), "inLab");
    assert_eq!(p.status_msg(), Some("working"));
    assert_eq!(p.timestamp(), 100);
}

#[test]
fn set_overwrites_even_with_older_time() {
    let mut p = LabPresence::new("inLab".to_string(), None, 100);
    assert!(p.set("offline".to_string(), Some("bye".to_string()), 50).is_ok());
    assert_eq!(p.presence(), "offline");
    assert_eq!(p.status_msg(), Some("bye"));
    assert_eq!(p.timestamp(), 50);
}

#[test]
fn update_takes_only_later_times() {
    let mut p = LabPresence::new("inLab".to_string(), None, 100);
    assert_eq!(p.update("offline".to_string(), None, 100), Err(PresenceError::StaleTimestamp));
    assert_eq!(p.update("offline".to_string(), None, 99), Err(PresenceError::StaleTimestamp));
    assert_eq!(p.presence(), "inLab");
    assert_eq!(p.timestamp(), 100);
    assert!(p.update("offline".to_string(), Some("home".to_string()), 101).is_ok());
    assert_eq!(p.presence(), "offline");
    assert_eq!(p.status_msg(), Some("home"));
    assert_eq!(p.timestamp(), 101);
    assert_eq!(PresenceError::StaleTimestamp.message(), "timestamp is not greater than current timestamp");
}

fn directory() -> MemberDirectory {
    MemberDirectory::new(vec![
        User { id: UserId { id: "u1".to_string() }, card_serial_number: "AA".to_string() },
        User { id: UserId { id: "u2".to_string() }, card_serial_number: "BB".to_string() },
        User { id: UserId { id: "u3".to_string() }, card_serial_number: "BB".to_string() },
    ])
}

#[test]
fn inquire_finds_the_first_holder() {
    let d = directory();
    assert_eq!(d.inquire("AA").unwrap().id, "u1");
    assert_eq!(d.inquire("BB").unwrap().id, "u2");
}

#[test]
fn inquire_reports_unknown_cards() {
    let d = directory();
    let e = d.inquire("CC").unwrap_err();
    assert_eq!(e, DirectoryError::UserNotFound);
    assert_eq!(e.message(), "User not found");
    assert!(MemberDirectory::new(vec![]).inquire("").is_err());
}

#[test]
fn hex_is_upper_case_two_digits_per_byte() {
    assert_eq!(to_hex_upper(&[]), "");
    assert_eq!(to_hex_upper(&[0x00, 0x0f, 0xa5, 0xff]), "000FA5FF");
    assert_ne!(to_hex_upper(&[0x01, 0x10]), to_hex_upper(&[0x10, 0x01]));
}

#[test]
fn text_helpers() {
    assert!(same_text("abc", "abc"));
    assert!(!same_text("abc", "abd"));
    assert!(text_starts_with("Bearer x", "Bearer "));
    assert!(!text_starts_with("Bear", "Bearer "));
    assert_eq!(drop_prefix("Bearer Bearer tok", "Bearer "), "Bearer tok");
    assert_eq!(drop_prefix("tok", ""), "tok");
    assert_eq!(join_text("ab", "cd"), "abcd");
}

#[test]
fn token_encoding_is_unpadded_url_safe_base64() {
    assert_eq!(encode_token(""), "");
    assert_eq!(encode_token("f"), "Zg");
    assert_eq!(encode_token("fo"), "Zm8");
    assert_eq!(encode_token("foo"), "Zm9v");
    assert_eq!(encode_token("foob"), "Zm9vYg");
    assert_eq!(encode_token("\x7f\x7f\x7f"), "f39_");
    assert_eq!(encode_token("~~~"), "fn5-");
    assert_eq!(encode_token("é"), "w6k");
}
