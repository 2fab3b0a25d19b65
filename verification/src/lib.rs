//! Laboratory presence tracking: the presence records kept by the hub, the
//! member directory that maps card serial numbers to users, the bearer-token
//! authentication of devices, and the decisions of the NFC card reader.

pub mod presence;
pub mod store;
pub mod text;

pub use presence::{LabPresence, PresenceError};
pub use store::TextMap;
pub mod directory;
pub mod messages;

pub use directory::{DirectoryError, MemberDirectory, User, UserId};
pub use messages::{ErrorResponse, LoginRequest, LoginResponse, PresenceResponse, PresenceUpdateRequest};
pub mod json;

pub use json::{check_device, device_secret, device_standing, lookup_field, lookup_text_field, secret_from, standing_in, validate_device, DeviceStanding, SecretError, TextFields};
pub mod entropy;
pub mod token;

pub use token::{encode_token, generate_secure_token};
pub mod auth;
pub mod base64url;

pub use auth::{AuthError, AuthHeader, AuthenticatedDevice};
pub mod hub;

pub use hub::{Grant, Hub, Refusal};
pub mod hex;

pub use hex::{hex_of_range, to_hex_upper};
pub mod nfc;

pub use nfc::{extract_idm, NfcSender, ReaderEvent, ReaderPlan};
