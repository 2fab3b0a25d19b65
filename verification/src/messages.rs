use vstd::prelude::*;

verus! {

/// A device asks for a one-time access token.
#[derive(Debug, Clone, PartialEq, Eq)]
pub struct LoginRequest {
    pub device_id: String,
    pub device_secret: String,
}

/// The token granted to a device and its lifetime in seconds.
#[derive(Debug, Clone, PartialEq, Eq)]
pub struct LoginResponse {
    pub access_token: String,
    pub expires_in: u32,
}

/// The presence of a user as reported to a client; an absent status
/// message is reported as the empty text.
#[derive(Debug, Clone, PartialEq, Eq)]
pub struct PresenceResponse {
    pub presence: String,
    pub status_msg: String,
    pub timestamp: u64,
}

/// A client asks to change the presence of a user; an empty status message
/// stands for none.
#[derive(Debug, Clone, PartialEq, Eq)]
pub struct PresenceUpdateRequest {
    pub presence: String,
    pub status_msg: String,
}

/// The body of a refused request: a machine-readable code and a text.
#[derive(Debug, Clone, PartialEq, Eq)]
pub struct ErrorResponse {
    pub errcode: String,
    pub error: String,
}

impl ErrorResponse {
    /// An error body with the given code and text.
    pub fn new(errcode: &str, error: &str) -> (r: Self)
        ensures
            r.errcode@ == errcode@,
            r.error@ == error@,
    {
        ErrorResponse { errcode: errcode.to_owned(), error: error.to_owned() }
    }
}

} // verus!
