use vstd::prelude::*;

verus! {

/// The optional text of a status message, by its characters.
pub open spec fn opt_text(o: Option<String>) -> Option<Seq<char>> {
    match o {
        Some(s) => Some(s@),
        None => None,
    }
}

/// What a presence record holds: the presence word, the optional status
/// message and the Unix time at which it was recorded.
pub struct PresenceView {
    pub presence: Seq<char>,
    pub status_msg: Option<Seq<char>>,
    pub timestamp: u64,
}

/// The record that `update` leaves: the offered values when their timestamp
/// is strictly later than the recorded one, the record unchanged otherwise.
pub open spec fn after_update(
    v: PresenceView,
    presence: Seq<char>,
    status_msg: Option<Seq<char>>,
    timestamp: u64,
) -> PresenceView {
    if timestamp > v.timestamp {
        PresenceView { presence, status_msg, timestamp }
    } else {
        v
    }
}

/// Why a presence record refused a change.
#[derive(Debug, PartialEq, Eq, Structural)]
pub enum PresenceError {
    /// The offered timestamp is not later than the one recorded.
    StaleTimestamp,
}

impl PresenceError {
    /// The text of the error, as shown to a client.
    pub fn message(&self) -> (r: String)
        ensures
            r@ == "timestamp is not greater than current timestamp"@,
    {
        "timestamp is not greater than current timestamp".to_owned()
    }
}

/// The presence of one lab member.
pub struct LabPresence {
    presence: String,
    status_msg: Option<String>,
    timestamp: u64,
}

impl View for LabPresence {
    type V = PresenceView;

    closed spec fn view(&self) -> PresenceView {
        PresenceView {
            presence: self.presence@,
            status_msg: opt_text(self.status_msg),
            timestamp: self.timestamp,
        }
    }
}

impl LabPresence {
    /// A record holding exactly the given values.
    pub fn new(presence: String, status_msg: Option<String>, timestamp: u64) -> (r: Self)
        ensures
            r@ == (PresenceView { presence: presence@, status_msg: opt_text(status_msg), timestamp }),
    {
        LabPresence { presence, status_msg, timestamp }
    }

    /// The recorded presence word.
    pub fn presence(&self) -> (r: &str)
        ensures
            r@ == self@.presence,
    {
        self.presence.as_str()
    }

    /// The recorded status message, if any.
    pub fn status_msg(&self) -> (r: Option<&str>)
        ensures
            r is Some <==> self@.status_msg is Some,
            r matches Some(s) ==> Some(s@) == self@.status_msg,
    {
        match &self.status_msg {
            Some(s) => Some(s.as_str()),
            None => None,
        }
    }

    /// The Unix time at which the record was made.
    pub fn timestamp(&self) -> (r: u64)
        ensures
            r == self@.timestamp,
    {
        self.timestamp
    }

    /// Overwrites the record, whatever its timestamp; it always succeeds.
    pub fn set(&mut self, presence: String, status_msg: Option<String>, timestamp: u64) -> (r: Result<(), PresenceError>)
        ensures
            r is Ok,
            final(self)@ == (PresenceView { presence: presence@, status_msg: opt_text(status_msg), timestamp }),
    {
        self.presence = presence;
        self.status_msg = status_msg;
        self.timestamp = timestamp;
        Ok(())
    }

    /// Overwrites the record only with a strictly later timestamp; otherwise
    /// the record stays as it was and the change is refused.
    pub fn update(&mut self, presence: String, status_msg: Option<String>, timestamp: u64) -> (r: Result<(), PresenceError>)
        ensures
            r is Ok <==> timestamp > old(self)@.timestamp,
            r is Err ==> r == Err::<(), PresenceError>(PresenceError::StaleTimestamp),
            final(self)@ == after_update(old(self)@, presence@, opt_text(status_msg), timestamp),
    {
        if timestamp > self.timestamp {
            self.presence = presence;
            self.status_msg = status_msg;
            self.timestamp = timestamp;
            Ok(())
        } else {
            Err(PresenceError::StaleTimestamp)
        }
    }
}

/// Law: an update never moves the recorded timestamp back.
pub proof fn lemma_update_never_goes_back(v: PresenceView, presence: Seq<char>, status_msg: Option<Seq<char>>, timestamp: u64)
    ensures
        after_update(v, presence, status_msg, timestamp).timestamp >= v.timestamp,
{
}

/// Law: once an update with some timestamp has been applied, any further
/// update offering the same timestamp leaves the record as it is.
pub proof fn lemma_replayed_update_refused(
    v: PresenceView,
    presence: Seq<char>,
    status_msg: Option<Seq<char>>,
    timestamp: u64,
    presence2: Seq<char>,
    status_msg2: Option<Seq<char>>,
)
    ensures
        ({
            let w = after_update(v, presence, status_msg, timestamp);
            after_update(w, presence2, status_msg2, timestamp) == w
        }),
{
}

/// Law: of two updates, the one with the later timestamp decides the record,
/// whatever order they arrive in, as long as it is later than the record.
pub proof fn lemma_latest_update_wins(
    v: PresenceView,
    p1: Seq<char>,
    m1: Option<Seq<char>>,
    t1: u64,
    p2: Seq<char>,
    m2: Option<Seq<char>>,
    t2: u64,
)
    requires
        t1 < t2,
        v.timestamp < t2,
    ensures
        after_update(after_update(v, p1, m1, t1), p2, m2, t2) == (PresenceView { presence: p2, status_msg: m2, timestamp: t2 }),
        after_update(after_update(v, p2, m2, t2), p1, m1, t1) == (PresenceView { presence: p2, status_msg: m2, timestamp: t2 }),
{
}

/// One write to a presence record: `set` or `update` with its arguments.
pub enum PresenceWrite {
    Overwrite(Seq<char>, Option<Seq<char>>, u64),
    Update(Seq<char>, Option<Seq<char>>, u64),
}

/// The record that a write offers.
pub open spec fn offered(w: PresenceWrite) -> PresenceView {
    match w {
        PresenceWrite::Overwrite(presence, status_msg, timestamp) => PresenceView { presence, status_msg, timestamp },
        PresenceWrite::Update(presence, status_msg, timestamp) => PresenceView { presence, status_msg, timestamp },
    }
}

/// The record after one write, as `set` and `update` leave it.
pub open spec fn apply_write(v: PresenceView, w: PresenceWrite) -> PresenceView {
    match w {
        PresenceWrite::Overwrite(presence, status_msg, timestamp) => PresenceView { presence, status_msg, timestamp },
        PresenceWrite::Update(presence, status_msg, timestamp) => after_update(v, presence, status_msg, timestamp),
    }
}

/// The record after a sequence of writes, in order.
pub open spec fn apply_writes(v: PresenceView, ws: Seq<PresenceWrite>) -> PresenceView
    decreases ws.len(),
{
    if ws.len() == 0 {
        v
    } else {
        apply_write(apply_writes(v, ws.drop_last()), ws.last())
    }
}

/// Law: after any sequence of writes, the record is the one it started with
/// or exactly the record that one of the writes offered: its presence, status
/// message and timestamp always come from the same write, so an earlier
/// status message is never kept beside a later presence.
pub proof fn lemma_record_is_one_write(v: PresenceView, ws: Seq<PresenceWrite>)
    ensures
        apply_writes(v, ws) == v || exists|k: int| 0 <= k < ws.len() && apply_writes(v, ws) == offered(#[trigger] ws[k]),
    decreases ws.len(),
{
    if ws.len() > 0 {
        let prev = ws.drop_last();
        lemma_record_is_one_write(v, prev);
        let last = ws.len() - 1;
        let r = apply_writes(v, ws);
        if r != apply_writes(v, prev) {
            assert(r == offered(ws[last]));
        } else if apply_writes(v, prev) != v {
            let k = choose|k: int| 0 <= k < prev.len() && apply_writes(v, prev) == offered(#[trigger] prev[k]);
            assert(prev[k] == ws[k]);
        }
    }
}

/// Whether the write `w` takes effect on the record `prior`: an overwrite
/// always does, an update only with a strictly later timestamp.
pub open spec fn takes_effect(prior: PresenceView, w: PresenceWrite) -> bool {
    match w {
        PresenceWrite::Overwrite(_, _, _) => true,
        PresenceWrite::Update(_, _, timestamp) => timestamp > prior.timestamp,
    }
}

/// The position of the last write of `ws` that takes effect when the writes
/// are applied in order to `v`; `None` when none does.
pub open spec fn last_effective(v: PresenceView, ws: Seq<PresenceWrite>) -> Option<int>
    decreases ws.len(),
{
    if ws.len() == 0 {
        None
    } else if takes_effect(apply_writes(v, ws.drop_last()), ws.last()) {
        Some(ws.len() - 1)
    } else {
        last_effective(v, ws.drop_last())
    }
}

/// Law: after any sequence of writes, the status message (and with it the
/// whole record) is the one offered by the last write that took effect, and
/// the starting one when none did; every write after that one was refused.
/// So the message is `None` exactly when that write offered none, and an
/// earlier message is never kept.
pub proof fn lemma_last_effective_write_kept(v: PresenceView, ws: Seq<PresenceWrite>)
    ensures
        match last_effective(v, ws) {
            Some(k) => {
                &&& 0 <= k < ws.len()
                &&& takes_effect(apply_writes(v, ws.take(k)), ws[k])
                &&& apply_writes(v, ws).status_msg == offered(ws[k]).status_msg
                &&& apply_writes(v, ws) == offered(ws[k])
                &&& forall|j: int| k < j < ws.len() ==> !#[trigger] takes_effect(apply_writes(v, ws.take(j)), ws[j])
            },
            None => {
                &&& apply_writes(v, ws).status_msg == v.status_msg
                &&& apply_writes(v, ws) == v
                &&& forall|j: int| 0 <= j < ws.len() ==> !#[trigger] takes_effect(apply_writes(v, ws.take(j)), ws[j])
            },
        },
    decreases ws.len(),
{
    if ws.len() > 0 {
        let prev = ws.drop_last();
        let n = ws.len() - 1;
        lemma_last_effective_write_kept(v, prev);
        assert(ws.take(n) =~= prev);
        assert forall|j: int| 0 <= j < n implies ws.take(j) == prev.take(j) && ws[j] == prev[j] by {
            assert(ws.take(j) =~= prev.take(j));
        }
        if !takes_effect(apply_writes(v, prev), ws.last()) {
            assert(apply_writes(v, ws) == apply_writes(v, prev));
            match last_effective(v, prev) {
                Some(k) => {
                    assert(ws.take(k) == prev.take(k));
                    assert forall|j: int| k < j < ws.len() implies !#[trigger] takes_effect(apply_writes(v, ws.take(j)), ws[j]) by {
                        if j < n {
                            assert(ws.take(j) == prev.take(j));
                        }
                    }
                },
                None => {
                    assert forall|j: int| 0 <= j < ws.len() implies !#[trigger] takes_effect(apply_writes(v, ws.take(j)), ws[j]) by {
                        if j < n {
                            assert(ws.take(j) == prev.take(j));
                        }
                    }
                },
            }
        }
    }
}

/// Law: a write that takes effect decides the whole record, the status
/// message included; an overwrite (`set`) always takes effect.
pub proof fn lemma_last_effective_write_decides(v: PresenceView, ws: Seq<PresenceWrite>, w: PresenceWrite)
    requires
        w is Overwrite || offered(w).timestamp > apply_writes(v, ws).timestamp,
    ensures
        apply_writes(v, ws.push(w)) == offered(w),
        apply_writes(v, ws.push(w)).status_msg == offered(w).status_msg,
{
    assert(ws.push(w).drop_last() =~= ws);
}

} // verus!
