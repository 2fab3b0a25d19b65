use base64::Engine;
use lab_presence::auth::{AuthError, AuthHeader};
use lab_presence::hub::Hub;
use lab_presence::json::{device_secret, device_standing, validate_device, DeviceStanding};
use lab_presence::messages::{LoginRequest, PresenceUpdateRequest};
use lab_presence::token::generate_secure_token;

const DEVICES: &str = r#"{"nfc": "nfc-secret", "slint": "slint-secret", "odd": 7}"#;

fn login(hub: &mut Hub, id: &str, secret: &str, now: u64) -> Result<String, (u16, String, String)> {
    let req = LoginRequest { device_id: id.to_string(), device_secret: secret.to_string() };
    hub.login(DEVICES, &req, now).map(|r| {
        assert_eq!(r.expires_in, 3600);
        r.access_token
    }).map_err(|e| (e.status, e.body.errcode, e.body.error))
}

fn bearer(token: &str) -> AuthHeader {
    AuthHeader::Text(format!("Bearer {}", token))
}

#[test]
fn validate_device_checks_the_secret() {
    assert!(validate_device(DEVICES, "nfc", "nfc-secret"));
    assert!(!validate_device(DEVICES, "nfc", "wrong"));
    assert!(!validate_device(DEVICES, "unknown", "nfc-secret"));
    assert!(!validate_device(DEVICES, "odd", "7"));
    assert!(!validate_device("not json", "nfc", "nfc-secret"));
    assert!(!validate_device("[\"nfc\"]", "nfc", "nfc-secret"));
    assert!(!validate_device("{}", "nfc", ""));
}

#[test]
fn device_standing_tells_unknown_from_wrong() {
    assert_eq!(device_standing(DEVICES, "nfc", "nfc-secret"), DeviceStanding::Allowed);
    assert_eq!(device_standing(DEVICES, "nfc", "x"), DeviceStanding::WrongSecret);
    assert_eq!(device_standing(DEVICES, "odd", "7"), DeviceStanding::WrongSecret);
    assert_eq!(device_standing(DEVICES, "ghost", "x"), DeviceStanding::Unknown);
    assert_eq!(device_standing("{oops", "nfc", "nfc-secret"), DeviceStanding::Unknown);
}

#[test]
fn device_secret_reads_one_field() {
    assert_eq!(device_secret(DEVICES, "slint").ok(), Some("slint-secret".to_string()));
    assert!(device_secret(DEVICES, "odd").is_err());
    let secret = device_secret(DEVICES, "nfc").ok().unwrap();
    assert!(validate_device(DEVICES, "nfc", &secret));
}

#[test]
fn tokens_are_url_safe_and_fresh() {
    let a = generate_secure_token().unwrap();
    let b = generate_secure_token().unwrap();
    assert_eq!(a.len(), 43);
    assert!(a.chars().all(|c| c.is_ascii_alphanumeric() || c == '-' || c == '_'));
    assert_ne!(a, b);
    let raw = base64::engine::general_purpose::URL_SAFE_NO_PAD.decode(&a).unwrap();
    assert_eq!(raw.len(), 32);
    assert!(raw.iter().all(|b| b.is_ascii_alphanumeric()));
}

#[test]
fn login_refuses_wrong_secret() {
    let mut hub = Hub::new();
    assert_eq!(
        login(&mut hub, "nfc", "nope", 0),
        Err((403, "M_FORBIDDEN".to_string(), "authorization failed".to_string()))
    );
}

#[test]
fn login_of_unlisted_device_is_not_found() {
    let mut hub = Hub::new();
    assert_eq!(
        login(&mut hub, "ghost", "nfc-secret", 0),
        Err((404, "M_NOT_FOUND".to_string(), "requested device was not found.".to_string()))
    );
}

#[test]
fn granted_token_authenticates_its_device() {
    let mut hub = Hub::new();
    let token = login(&mut hub, "nfc", "nfc-secret", 1000).unwrap();
    assert_eq!(hub.authenticate(&bearer(&token), 1000).unwrap().device_id, "nfc");
    let other = login(&mut hub, "slint", "slint-secret", 1000).unwrap();
    assert_eq!(hub.authenticate(&bearer(&other), 1001).unwrap().device_id, "slint");
    assert_eq!(hub.authenticate(&bearer(&token), 1002).unwrap().device_id, "nfc");
}

#[test]
fn token_expires_after_its_lifetime() {
    let mut hub = Hub::new();
    let token = login(&mut hub, "nfc", "nfc-secret", 1000).unwrap();
    assert!(hub.authenticate(&bearer(&token), 4600).is_ok());
    assert_eq!(hub.authenticate(&bearer(&token), 4601).unwrap_err(), AuthError::Unauthorized);
}

#[test]
fn doubled_bearer_prefix_is_not_the_token() {
    let mut hub = Hub::new();
    let token = login(&mut hub, "nfc", "nfc-secret", 0).unwrap();
    let doubled = AuthHeader::Text(format!("Bearer Bearer {}", token));
    assert_eq!(hub.authenticate(&doubled, 0).unwrap_err(), AuthError::Unauthorized);
}

#[test]
fn authentication_errors() {
    let hub = Hub::new();
    assert_eq!(hub.authenticate(&AuthHeader::Missing, 0).unwrap_err(), AuthError::MissingHeader);
    assert_eq!(hub.authenticate(&AuthHeader::Unreadable, 0).unwrap_err(), AuthError::InvalidFormat);
    assert_eq!(hub.authenticate(&AuthHeader::Text("Basic abc".to_string()), 0).unwrap_err(), AuthError::InvalidFormat);
    assert_eq!(hub.authenticate(&AuthHeader::Text("Bearer abc".to_string()), 0).unwrap_err(), AuthError::Unauthorized);
    assert_eq!(AuthError::MissingHeader.message(), "Missing Authorization Header");
    assert_eq!(AuthError::InvalidFormat.message(), "Invalid Bearer Format");
    assert_eq!(AuthError::Unauthorized.message(), "Authorization failed");
}

fn update(presence: &str, status: &str) -> PresenceUpdateRequest {
    PresenceUpdateRequest { presence: presence.to_string(), status_msg: status.to_string() }
}

fn hub_with_device() -> (Hub, AuthHeader) {
    let mut hub = Hub::new();
    let token = login(&mut hub, "nfc", "nfc-secret", 100).unwrap();
    (hub, bearer(&token))
}

#[test]
fn unauthenticated_requests_get_the_documented_refusals() {
    let mut hub = Hub::new();
    hub.register_user("u".to_string());
    let e = hub.get_presence(&AuthHeader::Missing, "u", 0).unwrap_err();
    assert_eq!((e.status, e.body.errcode.as_str(), e.body.error.as_str()), (403, "M_FORBIDDEN", "You are not allowed to see their presence"));
    let e = hub.put_presence(&AuthHeader::Text("Bearer nope".to_string()), "u".to_string(), &update("inLab", ""), 5).unwrap_err();
    assert_eq!((e.status, e.body.errcode.as_str(), e.body.error.as_str()), (403, "M_FORBIDDEN", "authorization failed"));
}

#[test]
fn get_unknown_user_is_not_found() {
    let (hub, auth) = hub_with_device();
    let e = hub.get_presence(&auth, "ghost", 100).unwrap_err();
    assert_eq!(e.status, 404);
    assert_eq!(e.body.errcode, "M_UNKNOWN");
    assert_eq!(e.body.error, "An unknown error occurred");
}

#[test]
fn put_for_unknown_user_is_not_found() {
    let (mut hub, auth) = hub_with_device();
    let e = hub.put_presence(&auth, "ghost".to_string(), &update("inLab", ""), 100).unwrap_err();
    assert_eq!((e.status, e.body.errcode.as_str(), e.body.error.as_str()), (404, "M_NOT_FOUND", "requested user was not found."));
    assert!(hub.get_presence(&auth, "ghost", 100).is_err());
}

#[test]
fn registered_user_starts_offline() {
    let (mut hub, auth) = hub_with_device();
    hub.register_user("u".to_string());
    let r = hub.get_presence(&auth, "u", 100).unwrap();
    assert_eq!((r.presence.as_str(), r.status_msg.as_str(), r.timestamp), ("offline", "", 0));
}

#[test]
fn put_then_get_reads_back() {
    let (mut hub, auth) = hub_with_device();
    hub.register_user("user_123".to_string());
    assert!(hub.put_presence(&auth, "user_123".to_string(), &update("inLab", "NFC toggle request sent"), 1000).is_ok());
    let r = hub.get_presence(&auth, "user_123", 1000).unwrap();
    assert_eq!(r.presence, "inLab");
    assert_eq!(r.status_msg, "NFC toggle request sent");
    assert_eq!(r.timestamp, 1000);
    assert!(hub.put_presence(&auth, "user_123".to_string(), &update("offline", ""), 1001).is_ok());
    let r = hub.get_presence(&auth, "user_123", 1001).unwrap();
    assert_eq!(r.presence, "offline");
    assert_eq!(r.status_msg, "");
    assert_eq!(r.timestamp, 1001);
}

#[test]
fn stale_put_is_refused_and_changes_nothing() {
    let (mut hub, auth) = hub_with_device();
    hub.register_user("u".to_string());
    hub.put_presence(&auth, "u".to_string(), &update("inLab", "here"), 10).unwrap();
    let e = hub.put_presence(&auth, "u".to_string(), &update("offline", "gone"), 10).unwrap_err();
    assert_eq!(e.status, 400);
    assert_eq!(e.body.errcode, "M_BAD_JSON");
    assert_eq!(e.body.error, "timestamp is not greater than current timestamp");
    let r = hub.get_presence(&auth, "u", 10).unwrap();
    assert_eq!(r.presence, "inLab");
    assert_eq!(r.status_msg, "here");
    assert_eq!(r.timestamp, 10);
}

#[test]
fn put_on_one_user_leaves_others() {
    let (mut hub, auth) = hub_with_device();
    hub.register_user("a".to_string());
    hub.register_user("b".to_string());
    hub.put_presence(&auth, "a".to_string(), &update("inLab", ""), 5).unwrap();
    hub.put_presence(&auth, "b".to_string(), &update("offline", "x"), 1).unwrap();
    assert_eq!(hub.get_presence(&auth, "a", 5).unwrap().presence, "inLab");
    assert_eq!(hub.get_presence(&auth, "b", 5).unwrap().timestamp, 1);
    hub.register_user("a".to_string());
    assert_eq!(hub.get_presence(&auth, "a", 5).unwrap().presence, "inLab");
}
