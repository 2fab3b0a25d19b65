use vstd::prelude::*;
use crate::text::has_prefix;

verus! {

/// The scheme word that opens an `Authorization` header, with its space.
pub const BEARER: &'static str = "Bearer ";

/// The lifetime, in seconds, announced with every granted token.
pub const TOKEN_LIFETIME_SECS: u32 = 3600;

/// The token that an `Authorization` header of the form `Bearer <token>`
/// carries: what follows the one leading `"Bearer "`; `None` for a header of
/// another form.
pub open spec fn bearer_token(header: Seq<char>) -> Option<Seq<char>> {
    if has_prefix(header, BEARER@) {
        Some(header.subrange(BEARER@.len() as int, header.len() as int))
    } else {
        None
    }
}

/// A token granted at `granted_at` still holds at `now`: no more than its
/// lifetime has passed.
pub open spec fn token_live(granted_at: u64, now: u64) -> bool {
    now <= granted_at + TOKEN_LIFETIME_SECS
}

/// The device that a request with an `Authorization` header of the text
/// `header` speaks for at time `now`, given the granted tokens, each with its
/// device and the time of its grant.
pub open spec fn authorized_device(tokens: Map<Seq<char>, (Seq<char>, u64)>, header: Seq<char>, now: u64) -> Option<Seq<char>> {
    match bearer_token(header) {
        Some(t) => if tokens.contains_key(t) && token_live(tokens[t].1, now) {
            Some(tokens[t].0)
        } else {
            None
        },
        None => None,
    }
}

/// The `Authorization` header of a request, as the request carries it.
pub enum AuthHeader {
    /// The request has no such header.
    Missing,
    /// The header's value is not visible ASCII text.
    Unreadable,
    /// The header's value.
    Text(String),
}

/// A device whose bearer token was accepted.
#[derive(Debug)]
pub struct AuthenticatedDevice {
    pub device_id: String,
}

/// Why a request was not authenticated.
#[derive(Debug, PartialEq, Eq, Structural)]
pub enum AuthError {
    MissingHeader,
    InvalidFormat,
    Unauthorized,
}

/// The text shown for an authentication error.
pub open spec fn auth_error_text(e: AuthError) -> Seq<char> {
    match e {
        AuthError::MissingHeader => "Missing Authorization Header"@,
        AuthError::InvalidFormat => "Invalid Bearer Format"@,
        AuthError::Unauthorized => "Authorization failed"@,
    }
}

impl AuthError {
    /// The text of the error.
    pub fn message(&self) -> (r: String)
        ensures
            r@ == auth_error_text(*self),
    {
        match self {
            AuthError::MissingHeader => "Missing Authorization Header".to_owned(),
            AuthError::InvalidFormat => "Invalid Bearer Format".to_owned(),
            AuthError::Unauthorized => "Authorization failed".to_owned(),
        }
    }
}

} // verus!
