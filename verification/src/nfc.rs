use vstd::prelude::*;
use crate::directory::{card_known, first_holder, MemberDirectory, UserId};
use crate::hex::{hex_of_range, hex_upper, lemma_hex_upper_injective};
use crate::json::{device_secret, field_text, json_text_fields, SecretError};
use crate::messages::{LoginRequest, LoginResponse, PresenceUpdateRequest};
use crate::text::{join_text, same_text};

verus! {

/// Where the hub is reached when no address is configured.
pub const DEFAULT_CORE_URL: &'static str = "https://localhost:8443";

/// The device identifier under which the card reader logs in.
pub const NFC_DEVICE_ID: &'static str = "nfc";

/// The status message sent with every toggle.
pub const TOGGLE_STATUS_MSG: &'static str = "NFC toggle request sent";

/// The presence word of a member who is in the lab.
pub const IN_LAB: &'static str = "inLab";

/// The presence word of a member who is not.
pub const OFFLINE: &'static str = "offline";

/// The first byte of the card identifier in a polling response.
pub const IDM_START: usize = 10;

/// One past the last byte of the card identifier in a polling response.
pub const IDM_END: usize = 18;

/// The presence that a card touch switches to: `"offline"` for a member in
/// the lab, `"inLab"` for anything else.
pub open spec fn toggled(presence: Seq<char>) -> Seq<char> {
    if presence == IN_LAB@ {
        OFFLINE@
    } else {
        IN_LAB@
    }
}

/// The card identifier carried by a polling response: the upper-case
/// hexadecimal text of its bytes 10 to 17, when it is long enough.
pub open spec fn idm_of(rapdu: Seq<u8>) -> Option<Seq<char>> {
    if rapdu.len() < IDM_END {
        None
    } else {
        Some(hex_upper(rapdu.subrange(IDM_START as int, IDM_END as int)))
    }
}

/// The card identifier of a polling response, as `idm_of` says.
pub fn extract_idm(rapdu: &[u8]) -> (r: Option<String>)
    ensures
        r is None <==> rapdu@.len() < IDM_END,
        r matches Some(s) ==> idm_of(rapdu@) == Some(s@),
        r matches Some(s) ==> s@ == hex_upper(rapdu@.subrange(10, 18)),
{
    if rapdu.len() < IDM_END {
        None
    } else {
        Some(hex_of_range(rapdu, IDM_START, IDM_END))
    }
}

/// What the card reader saw in one round of polling.
pub enum ReaderEvent {
    /// The list of readers could not be had.
    ReaderListFailed,
    /// No reader is attached.
    NoReader,
    /// No card could be reached on the reader.
    ConnectFailed,
    /// The polling command could not be sent to the card.
    TransmitFailed,
    /// The card answered the polling command with these bytes.
    Response(Vec<u8>),
}

/// What the reader does after one round: whose presence to toggle, if
/// anyone's, and how long to pause before the next round, in milliseconds.
pub struct ReaderPlan {
    pub toggle_user: Option<UserId>,
    pub pause_ms: u64,
}

/// The pause after a round in which the reader list could not be read.
pub const NO_READER_PAUSE_MS: u64 = 1000;

/// The pause after any other round.
pub const ROUND_PAUSE_MS: u64 = 500;

/// The extra pause after a card was read.
pub const CARD_PAUSE_MS: u64 = 2000;

/// The card reader's client state: where the hub is, the token it was
/// granted, and the members it knows.
pub struct NfcSender {
    pub core_url: String,
    pub token: String,
    pub member_directory: MemberDirectory,
}

impl NfcSender {
    /// A reader with no address, no token and no member.
    pub fn new() -> (r: Self)
        ensures
            r.core_url@ == Seq::<char>::empty(),
            r.token@ == Seq::<char>::empty(),
            r.member_directory.users@ == Seq::<crate::directory::User>::empty(),
    {
        proof {
            reveal_strlit("");
        }
        NfcSender { core_url: "".to_owned(), token: "".to_owned(), member_directory: MemberDirectory::new(Vec::new()) }
    }

    /// Takes the configured hub address, or the default one when none is
    /// given.
    pub fn set_core_url(&mut self, core_url: Option<String>)
        ensures
            final(self).core_url@ == match core_url {
                Some(u) => u@,
                None => DEFAULT_CORE_URL@,
            },
            final(self).member_directory.users@ == old(self).member_directory.users@,
            final(self).token@ == old(self).token@,
    {
        self.core_url = match core_url {
            Some(u) => u,
            None => DEFAULT_CORE_URL.to_owned(),
        };
    }

    /// Takes the member directory, and reads the reader's own secret from the
    /// allowed-devices document.
    pub fn configure(&mut self, member_directory: MemberDirectory, allowed_devices: &str) -> (r: Result<String, SecretError>)
        ensures
            final(self).core_url@ == old(self).core_url@,
            final(self).member_directory.users@ == member_directory.users@,
            final(self).token@ == old(self).token@,
            r is Err && r->Err_0 is Malformed <==> json_text_fields(allowed_devices@) is None,
            r is Err && r->Err_0 is Missing <==> (json_text_fields(allowed_devices@) matches Some(d) && (match d {
                Some(f) => field_text(f, NFC_DEVICE_ID@) is None,
                None => true,
            })),
            r matches Ok(s) ==> json_text_fields(allowed_devices@) matches Some(Some(f)) && field_text(f, NFC_DEVICE_ID@) == Some(s@),
    {
        self.member_directory = member_directory;
        device_secret(allowed_devices, NFC_DEVICE_ID)
    }

    /// The login request of the reader.
    pub fn login_request(secret: String) -> (r: LoginRequest)
        ensures
            r.device_id@ == NFC_DEVICE_ID@,
            r.device_secret@ == secret@,
    {
        LoginRequest { device_id: NFC_DEVICE_ID.to_owned(), device_secret: secret }
    }

    /// Where the reader logs in.
    pub fn login_url(&self) -> (r: String)
        ensures
            r@ == self.core_url@ + "/api/v1/login"@,
    {
        join_text(self.core_url.as_str(), "/api/v1/login")
    }

    /// Keeps the token that the hub granted.
    pub fn accept_login(&mut self, response: LoginResponse)
        ensures
            final(self).token@ == response.access_token@,
            final(self).core_url@ == old(self).core_url@,
            final(self).member_directory.users@ == old(self).member_directory.users@,
    {
        self.token = response.access_token;
    }

    /// Where the presence of a user is read and changed.
    pub fn presence_url(&self, user_id: &UserId) -> (r: String)
        ensures
            r@ == self.core_url@ + "/api/v1/presence/"@ + user_id.id@ + "/status"@,
    {
        let a = join_text(self.core_url.as_str(), "/api/v1/presence/");
        let b = join_text(a.as_str(), user_id.id.as_str());
        join_text(b.as_str(), "/status")
    }

    /// The value of the `Authorization` header of the reader's requests.
    pub fn authorization(&self) -> (r: String)
        ensures
            r@ == "Bearer "@ + self.token@,
    {
        join_text("Bearer ", self.token.as_str())
    }

    /// The body of a presence change to `presence`.
    pub fn update_request(presence: &str) -> (r: PresenceUpdateRequest)
        ensures
            r.presence@ == presence@,
            r.status_msg@ == TOGGLE_STATUS_MSG@,
    {
        PresenceUpdateRequest { presence: presence.to_owned(), status_msg: TOGGLE_STATUS_MSG.to_owned() }
    }

    /// The presence that a card touch switches to.
    pub fn toggled_presence(presence: &str) -> (r: &'static str)
        ensures
            r@ == toggled(presence@),
            presence@ == IN_LAB@ ==> r@ == OFFLINE@,
            presence@ != IN_LAB@ ==> r@ == IN_LAB@,
    {
        if same_text(presence, IN_LAB) {
            OFFLINE
        } else {
            IN_LAB
        }
    }

    /// The member whose card gave the polling response, if the response
    /// carries a card identifier that a member carries.
    pub fn card_holder(&self, rapdu: &[u8]) -> (r: Option<UserId>)
        ensures
            r is Some <==> (idm_of(rapdu@) matches Some(idm) && card_known(self.member_directory.users@, idm)),
            r matches Some(u) ==> (idm_of(rapdu@) matches Some(idm) && exists|i: int|
                first_holder(self.member_directory.users@, idm, i) && u.id@ == self.member_directory.users@[i].id.id@),
    {
        match extract_idm(rapdu) {
            Some(idm) => match self.member_directory.inquire(idm.as_str()) {
                Ok(u) => Some(u),
                Err(_) => None,
            },
            None => None,
        }
    }

    /// What to do after one round of polling: after a readable card, toggle
    /// the holder (if known) and pause 2.5 s; with no reader list or no
    /// reader, pause 1 s; otherwise pause 0.5 s.
    pub fn plan(&self, event: &ReaderEvent) -> (r: ReaderPlan)
        ensures
            match event {
                ReaderEvent::ReaderListFailed | ReaderEvent::NoReader => r.toggle_user is None && r.pause_ms == NO_READER_PAUSE_MS,
                ReaderEvent::ConnectFailed | ReaderEvent::TransmitFailed => r.toggle_user is None && r.pause_ms == ROUND_PAUSE_MS,
                ReaderEvent::Response(bytes) => match idm_of(bytes@) {
                    None => r.toggle_user is None && r.pause_ms == ROUND_PAUSE_MS,
                    Some(idm) => r.pause_ms == CARD_PAUSE_MS + ROUND_PAUSE_MS && (r.toggle_user is Some <==> card_known(self.member_directory.users@, idm))
                        && (r.toggle_user matches Some(u) ==> exists|i: int|
                            first_holder(self.member_directory.users@, idm, i) && u.id@ == self.member_directory.users@[i].id.id@),
                },
            },
    {
        match event {
            ReaderEvent::ReaderListFailed | ReaderEvent::NoReader => ReaderPlan { toggle_user: None, pause_ms: NO_READER_PAUSE_MS },
            ReaderEvent::ConnectFailed | ReaderEvent::TransmitFailed => ReaderPlan { toggle_user: None, pause_ms: ROUND_PAUSE_MS },
            ReaderEvent::Response(bytes) => {
                if bytes.len() < IDM_END {
                    ReaderPlan { toggle_user: None, pause_ms: ROUND_PAUSE_MS }
                } else {
                    ReaderPlan { toggle_user: self.card_holder(bytes.as_slice()), pause_ms: CARD_PAUSE_MS + ROUND_PAUSE_MS }
                }
            },
        }
    }
}

/// Law: a touch takes a member offline exactly when they were in the lab;
/// every other presence word, whatever it is, becomes `"inLab"`.
pub proof fn lemma_toggle_only_in_lab_goes_offline(presence: Seq<char>)
    ensures
        toggled(presence) == OFFLINE@ <==> presence == IN_LAB@,
        presence != IN_LAB@ ==> toggled(presence) == IN_LAB@,
{
    reveal_strlit("inLab");
    reveal_strlit("offline");
    assert(IN_LAB@ != OFFLINE@) by {
        assert(IN_LAB@.len() != OFFLINE@.len());
    }
}

/// Law: the identifier that a polling response carries depends on its bytes
/// 10 to 17 alone: two responses of at least 18 bytes that agree there carry
/// the same identifier, whatever their other bytes; and responses that
/// differ there carry different identifiers.
pub proof fn lemma_idm_depends_only_on_identifier_bytes(r1: Seq<u8>, r2: Seq<u8>)
    requires
        r1.len() >= 18,
        r2.len() >= 18,
    ensures
        r1.subrange(10, 18) == r2.subrange(10, 18) ==> idm_of(r1) == idm_of(r2),
        idm_of(r1) == idm_of(r2) ==> r1.subrange(10, 18) == r2.subrange(10, 18),
        idm_of(r1) is Some,
{
    if idm_of(r1) == idm_of(r2) {
        lemma_hex_upper_injective(r1.subrange(10, 18), r2.subrange(10, 18));
    }
}

/// Law: a touch always leaves the member either in the lab or offline.
pub proof fn lemma_toggle_gives_known_word(presence: Seq<char>)
    ensures
        toggled(presence) == IN_LAB@ || toggled(presence) == OFFLINE@,
{
}

/// Law: two touches bring a member who is in the lab or offline back to
/// where they were.
pub proof fn lemma_toggle_twice(presence: Seq<char>)
    requires
        presence == IN_LAB@ || presence == OFFLINE@,
    ensures
        toggled(toggled(presence)) == presence,
{
    reveal_strlit("inLab");
    reveal_strlit("offline");
    assert(IN_LAB@ != OFFLINE@) by {
        assert(IN_LAB@.len() != OFFLINE@.len());
    }
}

} // verus!
