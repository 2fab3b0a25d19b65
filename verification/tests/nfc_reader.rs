use lab_presence::directory::{MemberDirectory, User, UserId};
use lab_presence::nfc::{extract_idm, NfcSender, ReaderEvent};
use lab_presence::messages::LoginResponse;

#[test]
fn test_toggled_presence_in_lab_to_offline() {
    let current = "inLab";
    let next = NfcSender::toggled_presence(current);
    assert_eq!(next, "offline");
}

#[test]
fn test_toggled_presence_offline_to_in_lab() {
    let current = "offline";
    let next = NfcSender::toggled_presence(current);
    assert_eq!(next, "inLab");
}

#[test]
fn test_toggled_presence_unknown_status_defaults_to_in_lab() {
    let current = "unknown";
    let next = NfcSender::toggled_presence(current);
    assert_eq!(next, "inLab");
}

#[test]
fn test_extract_idm_valid_rapdu() {
    let mut rapdu = vec![0u8; 18];
    rapdu[10..18].copy_from_slice(&[0x01, 0x2E, 0x3F, 0x4A, 0x5B, 0x6C, 0x7D, 0x8E]);

    let idm = extract_idm(&rapdu);
    assert_eq!(idm, Some("012E3F4A5B6C7D8E".to_string()));
}

#[test]
fn test_extract_idm_short_rapdu_returns_none() {
    let rapdu = vec![0u8; 17];
    let idm = extract_idm(&rapdu);
    assert_eq!(idm, None);
}

#[test]
fn toggling_twice_returns_to_start() {
    for start in ["inLab", "offline"] {
        let once = NfcSender::toggled_presence(start);
        assert_eq!(NfcSender::toggled_presence(once), start);
    }
}

#[test]
fn extract_idm_ignores_bytes_outside_the_identifier() {
    let mut rapdu: Vec<u8> = (0u8..30).collect();
    rapdu[10..18].copy_from_slice(&[0xFF, 0x00, 0xA0, 0x0B, 0x12, 0x34, 0xCD, 0xEF]);
    assert_eq!(extract_idm(&rapdu), Some("FF00A00B1234CDEF".to_string()));
}

fn sender_with_member() -> NfcSender {
    let mut sender = NfcSender::new();
    let users = vec![
        User { id: UserId { id: "alice".to_string() }, card_serial_number: "0102030405060708".to_string() },
        User { id: UserId { id: "bob".to_string() }, card_serial_number: "0102030405060708".to_string() },
    ];
    sender.set_core_url(None);
    let secret = sender.configure(MemberDirectory::new(users), r#"{"nfc": "s3cret", "hub": "x"}"#);
    assert_eq!(secret.ok(), Some("s3cret".to_string()));
    sender
}

#[test]
fn configure_uses_default_address_and_reads_secret() {
    let sender = sender_with_member();
    assert_eq!(sender.core_url, "https://localhost:8443");
    assert_eq!(sender.login_url(), "https://localhost:8443/api/v1/login");
    let req = NfcSender::login_request("s3cret".to_string());
    assert_eq!(req.device_id, "nfc");
    assert_eq!(req.device_secret, "s3cret");
}

#[test]
fn configure_reports_missing_and_malformed_secret() {
    let mut sender = NfcSender::new();
    sender.set_core_url(Some("http://hub".to_string()));
    let missing = sender.configure(MemberDirectory::new(vec![]), r#"{"nfc": 5}"#);
    assert!(matches!(missing, Err(ref e) if !e.is_malformed()));
    assert_eq!(sender.core_url, "http://hub");
    let not_object = sender.configure(MemberDirectory::new(vec![]), "[1, 2]");
    assert!(matches!(not_object, Err(ref e) if !e.is_malformed()));
    let malformed = sender.configure(MemberDirectory::new(vec![]), "{nfc");
    assert!(matches!(malformed, Err(ref e) if e.is_malformed()));
}

#[test]
fn urls_and_headers_follow_the_api() {
    let mut sender = sender_with_member();
    sender.accept_login(LoginResponse { access_token: "tok".to_string(), expires_in: 3600 });
    assert_eq!(sender.authorization(), "Bearer tok");
    let user = UserId { id: "user_123".to_string() };
    assert_eq!(sender.presence_url(&user), "https://localhost:8443/api/v1/presence/user_123/status");
    let body = NfcSender::update_request("offline");
    assert_eq!(body.presence, "offline");
    assert_eq!(body.status_msg, "NFC toggle request sent");
}

#[test]
fn plan_toggles_the_first_holder_of_a_known_card() {
    let sender = sender_with_member();
    let mut rapdu = vec![0u8; 18];
    rapdu[10..18].copy_from_slice(&[1, 2, 3, 4, 5, 6, 7, 8]);
    let plan = sender.plan(&ReaderEvent::Response(rapdu));
    assert_eq!(plan.toggle_user.map(|u| u.id), Some("alice".to_string()));
    assert_eq!(plan.pause_ms, 2500);
}

#[test]
fn plan_skips_unknown_cards_and_short_answers() {
    let sender = sender_with_member();
    let unknown = sender.plan(&ReaderEvent::Response(vec![9u8; 18]));
    assert!(unknown.toggle_user.is_none());
    assert_eq!(unknown.pause_ms, 2500);
    let short = sender.plan(&ReaderEvent::Response(vec![0u8; 5]));
    assert!(short.toggle_user.is_none());
    assert_eq!(short.pause_ms, 500);
    assert_eq!(sender.plan(&ReaderEvent::NoReader).pause_ms, 1000);
    assert_eq!(sender.plan(&ReaderEvent::ReaderListFailed).pause_ms, 1000);
    assert_eq!(sender.plan(&ReaderEvent::ConnectFailed).pause_ms, 500);
    assert_eq!(sender.plan(&ReaderEvent::TransmitFailed).pause_ms, 500);
}
