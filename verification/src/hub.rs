use vstd::prelude::*;
use crate::auth::{authorized_device, bearer_token, token_live, AuthError, AuthHeader, AuthenticatedDevice, BEARER, TOKEN_LIFETIME_SECS};
use crate::base64url::{base64_url_unpadded, is_alphanumeric, is_url_safe_base64};
use crate::json::{device_allowed, device_listed, device_standing, json_text_fields, DeviceStanding};
use crate::messages::{ErrorResponse, LoginRequest, LoginResponse, PresenceResponse, PresenceUpdateRequest};
use crate::presence::{after_update, LabPresence, PresenceView};
use crate::store::TextMap;
use crate::text::{drop_prefix, has_prefix, text_starts_with};
use crate::entropy::TokenSourceFailure;
use crate::token::{ascii_bytes, generate_secure_token, TOKEN_SOURCE_LEN};

verus! {

/// A refused request: the HTTP status to answer with, the error body and,
/// for a refusal caused by the token source, its failure.
#[derive(Debug)]
pub struct Refusal {
    pub status: u16,
    pub body: ErrorResponse,
    pub cause: Option<TokenSourceFailure>,
}

/// A refusal with the given status, code and text.
pub open spec fn refused(r: Refusal, status: u16, errcode: Seq<char>, error: Seq<char>) -> bool {
    r.status == status && r.body.errcode@ == errcode && r.body.error@ == error
}

/// `r` is a refusal with the given status, code and text.
pub open spec fn refused_with<T>(r: Result<T, Refusal>, status: u16, errcode: Seq<char>, error: Seq<char>) -> bool {
    match r {
        Err(e) => refused(e, status, errcode, error),
        Ok(_) => false,
    }
}

/// A request with this header speaks for some device at time `now`.
pub open spec fn header_admitted(tokens: Map<Seq<char>, (Seq<char>, u64)>, header: AuthHeader, now: u64) -> bool {
    match header {
        AuthHeader::Text(h) => authorized_device(tokens, h@, now) is Some,
        _ => false,
    }
}

fn refusal(status: u16, errcode: &str, error: &str) -> (r: Refusal)
    ensures
        refused(r, status, errcode@, error@),
        r.cause is None,
{
    Refusal { status, body: ErrorResponse::new(errcode, error), cause: None }
}

/// The presence word that a newly registered member starts with.
pub const INITIAL_PRESENCE: &'static str = "offline";

/// The status message that an update request asks for: none when its text is
/// empty.
pub open spec fn requested_status(text: Seq<char>) -> Option<Seq<char>> {
    if text.len() == 0 {
        None
    } else {
        Some(text)
    }
}

/// The status message as reported to a client: the empty text when there is
/// none.
pub open spec fn reported_status(v: PresenceView) -> Seq<char> {
    match v.status_msg {
        Some(s) => s,
        None => Seq::empty(),
    }
}

/// Whether a presence change of `user` at time `now` is taken: only for a
/// user with a record, and only when `now` is later than the recorded time.
pub open spec fn put_accepted(table: Map<Seq<char>, PresenceView>, user: Seq<char>, now: u64) -> bool {
    table.contains_key(user) && now > table[user].timestamp
}

/// The presence table after a change of `user` to `presence` with the status
/// text `status_text` at time `now`: a recorded user's record is updated as
/// `after_update` says; the table stays as it is for a user without one.
pub open spec fn table_after_put(
    table: Map<Seq<char>, PresenceView>,
    user: Seq<char>,
    presence: Seq<char>,
    status_text: Seq<char>,
    now: u64,
) -> Map<Seq<char>, PresenceView> {
    if table.contains_key(user) {
        table.insert(user, after_update(table[user], presence, requested_status(status_text), now))
    } else {
        table
    }
}

/// A granted token: the device it speaks for and the time it was granted.
pub struct Grant {
    pub device_id: String,
    pub granted_at: u64,
}

/// The state of the presence hub: the presence of each user and the grant
/// behind each token.
pub struct Hub {
    presences: TextMap<LabPresence>,
    tokens: TextMap<Grant>,
}

impl Hub {
    /// The presence of each user, by user identifier.
    pub closed spec fn presence_table(&self) -> Map<Seq<char>, PresenceView> {
        self.presences@.map_values(|p: LabPresence| p@)
    }

    /// The device identifier and grant time behind each granted token.
    pub closed spec fn token_table(&self) -> Map<Seq<char>, (Seq<char>, u64)> {
        self.tokens@.map_values(|g: Grant| (g.device_id@, g.granted_at))
    }

    /// A hub with no presence and no token.
    pub fn new() -> (r: Self)
        ensures
            r.presence_table() == Map::<Seq<char>, PresenceView>::empty(),
            r.token_table() == Map::<Seq<char>, (Seq<char>, u64)>::empty(),
    {
        let r = Hub { presences: TextMap::new(), tokens: TextMap::new() };
        assert(r.presence_table() =~= Map::<Seq<char>, PresenceView>::empty());
        assert(r.token_table() =~= Map::<Seq<char>, (Seq<char>, u64)>::empty());
        r
    }

    /// Gives `user_id` a presence record, `"offline"` with no status message
    /// at time 0, unless it has one already.
    pub fn register_user(&mut self, user_id: String)
        ensures
            final(self).presence_table() == if old(self).presence_table().contains_key(user_id@) {
                old(self).presence_table()
            } else {
                old(self).presence_table().insert(
                    user_id@,
                    PresenceView { presence: INITIAL_PRESENCE@, status_msg: None, timestamp: 0 },
                )
            },
            final(self).token_table() == old(self).token_table(),
    {
        if self.presences.get(user_id.as_str()).is_none() {
            let ghost before = self.presence_table();
            self.presences.insert(user_id, LabPresence::new(INITIAL_PRESENCE.to_owned(), None, 0));
            assert(self.presence_table() =~= before.insert(
                user_id@,
                PresenceView { presence: INITIAL_PRESENCE@, status_msg: None, timestamp: 0 },
            ));
        }
    }

    /// Checks the `Authorization` header of a request at time `now`: it must
    /// be present, readable, of the form `Bearer <token>`, and carry a token
    /// granted no more than its lifetime ago.
    pub fn authenticate(&self, header: &AuthHeader, now: u64) -> (r: Result<AuthenticatedDevice, AuthError>)
        ensures
            header is Missing ==> r == Err::<AuthenticatedDevice, AuthError>(AuthError::MissingHeader),
            header is Unreadable ==> r == Err::<AuthenticatedDevice, AuthError>(AuthError::InvalidFormat),
            header matches AuthHeader::Text(h) ==> match authorized_device(self.token_table(), h@, now) {
                Some(d) => r matches Ok(a) && a.device_id@ == d,
                None => r == Err::<AuthenticatedDevice, AuthError>(
                    if bearer_token(h@) is None { AuthError::InvalidFormat } else { AuthError::Unauthorized },
                ),
            },
    {
        match header {
            AuthHeader::Missing => Err(AuthError::MissingHeader),
            AuthHeader::Unreadable => Err(AuthError::InvalidFormat),
            AuthHeader::Text(h) => {
                if !text_starts_with(h.as_str(), BEARER) {
                    return Err(AuthError::InvalidFormat);
                }
                let token = drop_prefix(h.as_str(), BEARER);
                match self.tokens.get(token) {
                    Some(grant) => {
                        let expired = now > grant.granted_at && now - grant.granted_at > TOKEN_LIFETIME_SECS as u64;
                        if expired {
                            Err(AuthError::Unauthorized)
                        } else {
                            Ok(AuthenticatedDevice { device_id: grant.device_id.clone() })
                        }
                    },
                    None => Err(AuthError::Unauthorized),
                }
            },
        }
    }

    /// Records `token` as granted to the device `device_id` at time `now` and
    /// answers it.
    pub fn grant_token(&mut self, token: String, device_id: String, now: u64) -> (r: LoginResponse)
        ensures
            final(self).token_table() == old(self).token_table().insert(token@, (device_id@, now)),
            final(self).presence_table() == old(self).presence_table(),
            r.access_token@ == token@,
            r.expires_in == TOKEN_LIFETIME_SECS,
    {
        let key = token.clone();
        self.tokens.insert(key, Grant { device_id, granted_at: now });
        assert(self.token_table() =~= old(self).token_table().insert(token@, (device_id@, now)));
        LoginResponse { access_token: token, expires_in: TOKEN_LIFETIME_SECS }
    }

    /// Answers a login at time `now`: a device that the allowed-devices
    /// document `allowed_devices` does not list is not found; a listed device
    /// with another secret is refused; a device with its secret gets a fresh
    /// token, unless no token could be drawn.
    pub fn login(&mut self, allowed_devices: &str, req: &LoginRequest, now: u64) -> (r: Result<LoginResponse, Refusal>)
        ensures
            !device_listed(json_text_fields(allowed_devices@), req.device_id@) ==> refused_with(r, 404, "M_NOT_FOUND"@, "requested device was not found."@),
            device_listed(json_text_fields(allowed_devices@), req.device_id@)
                && !device_allowed(json_text_fields(allowed_devices@), req.device_id@, req.device_secret@)
                ==> refused_with(r, 403, "M_FORBIDDEN"@, "authorization failed"@),
            device_allowed(json_text_fields(allowed_devices@), req.device_id@, req.device_secret@)
                && r is Err ==> refused_with(r, 500, "M_UNKNOWN"@, "An unknown error occurred"@) && r->Err_0.cause is Some,
            r matches Err(e) && e.cause is Some ==> device_allowed(json_text_fields(allowed_devices@), req.device_id@, req.device_secret@),
            r is Err ==> final(self).token_table() == old(self).token_table(),
            r matches Ok(resp) ==> {
                &&& device_allowed(json_text_fields(allowed_devices@), req.device_id@, req.device_secret@)
                &&& final(self).token_table() == old(self).token_table().insert(resp.access_token@, (req.device_id@, now))
                &&& resp.expires_in == TOKEN_LIFETIME_SECS
                &&& exists|t: Seq<char>|
                    #![trigger base64_url_unpadded(ascii_bytes(t))]
                    t.len() == TOKEN_SOURCE_LEN && (forall|i: int| 0 <= i < t.len() ==> is_alphanumeric(#[trigger] t[i]))
                        && resp.access_token@ == base64_url_unpadded(ascii_bytes(t))
                &&& forall|i: int| 0 <= i < resp.access_token@.len() ==> is_url_safe_base64(#[trigger] resp.access_token@[i])
            },
            final(self).presence_table() == old(self).presence_table(),
    {
        match device_standing(allowed_devices, req.device_id.as_str(), req.device_secret.as_str()) {
            DeviceStanding::Unknown => Err(refusal(404, "M_NOT_FOUND", "requested device was not found.")),
            DeviceStanding::WrongSecret => Err(refusal(403, "M_FORBIDDEN", "authorization failed")),
            DeviceStanding::Allowed => match generate_secure_token() {
                Ok(token) => Ok(self.grant_token(token, req.device_id.clone(), now)),
                Err(failure) => Err(Refusal {
                    status: 500,
                    body: ErrorResponse::new("M_UNKNOWN", "An unknown error occurred"),
                    cause: Some(failure),
                }),
            },
        }
    }

    /// Answers a presence read at time `now`: an unauthenticated request is
    /// refused; otherwise the presence of `user_id`, or not found when the
    /// hub holds none.
    pub fn get_presence(&self, header: &AuthHeader, user_id: &str, now: u64) -> (r: Result<PresenceResponse, Refusal>)
        ensures
            !header_admitted(self.token_table(), *header, now)
                ==> refused_with(r, 403, "M_FORBIDDEN"@, "You are not allowed to see their presence"@),
            header_admitted(self.token_table(), *header, now) ==> {
                &&& r is Ok <==> self.presence_table().contains_key(user_id@)
                &&& r matches Ok(p) ==> {
                    let v = self.presence_table()[user_id@];
                    &&& p.presence@ == v.presence
                    &&& p.status_msg@ == reported_status(v)
                    &&& p.timestamp == v.timestamp
                }
                &&& r matches Err(e) ==> refused(e, 404, "M_UNKNOWN"@, "An unknown error occurred"@)
            },
    {
        if self.authenticate(header, now).is_err() {
            return Err(refusal(403, "M_FORBIDDEN", "You are not allowed to see their presence"));
        }
        match self.presences.get(user_id) {
            Some(p) => {
                let status_msg = match p.status_msg() {
                    Some(s) => s.to_owned(),
                    None => "".to_owned(),
                };
                proof {
                    reveal_strlit("");
                }
                Ok(PresenceResponse { presence: p.presence().to_owned(), status_msg, timestamp: p.timestamp() })
            },
            None => Err(refusal(404, "M_UNKNOWN", "An unknown error occurred")),
        }
    }

    /// Answers a presence change at time `now`: an unauthenticated request is
    /// refused; a user without a record is not found; a recorded user is
    /// changed as asked only when `now` is later than the recorded time, and
    /// the change is refused otherwise.
    pub fn put_presence(&mut self, header: &AuthHeader, user_id: String, req: &PresenceUpdateRequest, now: u64) -> (r: Result<(), Refusal>)
        ensures
            !header_admitted(old(self).token_table(), *header, now)
                ==> refused_with(r, 403, "M_FORBIDDEN"@, "authorization failed"@)
                && final(self).presence_table() == old(self).presence_table(),
            header_admitted(old(self).token_table(), *header, now) ==> {
                &&& r is Ok <==> put_accepted(old(self).presence_table(), user_id@, now)
                &&& !old(self).presence_table().contains_key(user_id@) ==> refused_with(r, 404, "M_NOT_FOUND"@, "requested user was not found."@)
                &&& old(self).presence_table().contains_key(user_id@) && r is Err ==> refused_with(r, 400, "M_BAD_JSON"@, "timestamp is not greater than current timestamp"@)
                &&& final(self).presence_table() == table_after_put(
                    old(self).presence_table(),
                    user_id@,
                    req.presence@,
                    req.status_msg@,
                    now,
                )
            },
            final(self).token_table() == old(self).token_table(),
    {
        if self.authenticate(header, now).is_err() {
            return Err(refusal(403, "M_FORBIDDEN", "authorization failed"));
        }
        let status_msg: Option<String> = if req.status_msg.as_str().is_empty() {
            None
        } else {
            Some(req.status_msg.clone())
        };
        let ghost before = self.presence_table();
        match self.presences.remove(user_id.as_str()) {
            Some(mut existing) => {
                let outcome = existing.update(req.presence.clone(), status_msg, now);
                self.presences.insert(user_id, existing);
                assert(self.presence_table() =~= table_after_put(before, user_id@, req.presence@, req.status_msg@, now));
                match outcome {
                    Ok(()) => Ok(()),
                    Err(e) => {
                        let text = e.message();
                        Err(Refusal { status: 400, body: ErrorResponse { errcode: "M_BAD_JSON".to_owned(), error: text }, cause: None })
                    },
                }
            },
            None => {
                assert(self.presences@ =~= old(self).presences@);
                Err(refusal(404, "M_NOT_FOUND", "requested user was not found."))
            },
        }
    }
}

/// Law: a presence change that the hub takes is what a later read reports:
/// the asked presence, the asked status text and the time of the change.
pub proof fn lemma_read_after_accepted_put(
    table: Map<Seq<char>, PresenceView>,
    user: Seq<char>,
    presence: Seq<char>,
    status_text: Seq<char>,
    now: u64,
)
    requires
        put_accepted(table, user, now),
    ensures
        ({
            let after = table_after_put(table, user, presence, status_text, now);
            &&& after.contains_key(user)
            &&& after[user].presence == presence
            &&& reported_status(after[user]) == status_text
            &&& after[user].timestamp == now
        }),
{
}

/// Law: a refused presence change leaves every record as it was.
pub proof fn lemma_refused_put_changes_nothing(
    table: Map<Seq<char>, PresenceView>,
    user: Seq<char>,
    presence: Seq<char>,
    status_text: Seq<char>,
    now: u64,
)
    requires
        !put_accepted(table, user, now),
    ensures
        table_after_put(table, user, presence, status_text, now) == table,
{
    assert(table_after_put(table, user, presence, status_text, now) =~= table);
}

/// Law: a presence change of one user leaves the records of all other users
/// as they were.
pub proof fn lemma_put_touches_one_user(
    table: Map<Seq<char>, PresenceView>,
    user: Seq<char>,
    presence: Seq<char>,
    status_text: Seq<char>,
    now: u64,
    other: Seq<char>,
)
    requires
        other != user,
    ensures
        table_after_put(table, user, presence, status_text, now).contains_key(other) == table.contains_key(other),
        table.contains_key(other) ==> table_after_put(table, user, presence, status_text, now)[other] == table[other],
{
}

/// Law: a token granted to a device at time `granted_at` makes a request
/// whose `Authorization` header is `"Bearer "` followed by that token speak
/// for that device at every time up to `granted_at` plus the token lifetime,
/// and at no later time.
pub proof fn lemma_granted_token_authenticates(
    tokens: Map<Seq<char>, (Seq<char>, u64)>,
    token: Seq<char>,
    device: Seq<char>,
    granted_at: u64,
    now: u64,
)
    ensures
        authorized_device(tokens.insert(token, (device, granted_at)), BEARER@ + token, now) == if now <= granted_at
            + TOKEN_LIFETIME_SECS {
            Some(device)
        } else {
            None
        },
{
    let h = BEARER@ + token;
    assert(h.subrange(0, BEARER@.len() as int) =~= BEARER@);
    assert(h.subrange(BEARER@.len() as int, h.len() as int) =~= token);
}

/// Law: no request is authenticated by a token after the token's lifetime
/// has passed since its grant.
pub proof fn lemma_expired_token_refused(tokens: Map<Seq<char>, (Seq<char>, u64)>, header: Seq<char>, now: u64)
    requires
        bearer_token(header) matches Some(t) && tokens.contains_key(t) && now > tokens[t].1 + TOKEN_LIFETIME_SECS,
    ensures
        authorized_device(tokens, header, now) is None,
{
}

/// Law: granting one token leaves every other granted token speaking for
/// the same device.
pub proof fn lemma_grant_keeps_other_tokens(
    tokens: Map<Seq<char>, (Seq<char>, u64)>,
    token: Seq<char>,
    device: Seq<char>,
    granted_at: u64,
    header: Seq<char>,
    now: u64,
)
    requires
        bearer_token(header) != Some(token),
    ensures
        authorized_device(tokens.insert(token, (device, granted_at)), header, now) == authorized_device(tokens, header, now),
{
}

} // verus!
