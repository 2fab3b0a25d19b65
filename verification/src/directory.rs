use vstd::prelude::*;
use crate::text::same_text;

verus! {

/// The identifier of a lab member.
#[derive(Debug, Clone)]
pub struct UserId {
    pub id: String,
}

/// A lab member and the serial number of the card they carry.
#[derive(Debug, Clone)]
pub struct User {
    pub id: UserId,
    pub card_serial_number: String,
}

/// Why a card could not be matched to a member.
#[derive(Debug, PartialEq, Eq, Structural)]
pub enum DirectoryError {
    /// No member carries the card.
    UserNotFound,
}

impl DirectoryError {
    /// The text of the error.
    pub fn message(&self) -> (r: String)
        ensures
            r@ == "User not found"@,
    {
        "User not found".to_owned()
    }
}

/// The lab members, in the order in which they were listed.
pub struct MemberDirectory {
    pub users: Vec<User>,
}

/// `i` is the first position of a member carrying the card `card`.
pub open spec fn first_holder(users: Seq<User>, card: Seq<char>, i: int) -> bool {
    &&& 0 <= i < users.len()
    &&& users[i].card_serial_number@ == card
    &&& forall|j: int| 0 <= j < i ==> #[trigger] users[j].card_serial_number@ != card
}

/// Some member carries the card `card`.
pub open spec fn card_known(users: Seq<User>, card: Seq<char>) -> bool {
    exists|i: int| 0 <= i < users.len() && #[trigger] users[i].card_serial_number@ == card
}

impl MemberDirectory {
    /// A directory of the given members.
    pub fn new(users: Vec<User>) -> (r: Self)
        ensures
            r.users@ == users@,
    {
        MemberDirectory { users }
    }

    /// The identifier of the first member who carries the card, or an error
    /// when no member does.
    pub fn inquire(&self, card_serial_number: &str) -> (r: Result<UserId, DirectoryError>)
        ensures
            r is Err <==> !card_known(self.users@, card_serial_number@),
            r is Err ==> r == Err::<UserId, DirectoryError>(DirectoryError::UserNotFound),
            r matches Ok(u) ==> exists|i: int|
                first_holder(self.users@, card_serial_number@, i) && u.id@ == self.users@[i].id.id@,
    {
        let n = self.users.len();
        let mut i: usize = 0;
        while i < n
            invariant
                n == self.users@.len(),
                i <= n,
                forall|j: int| 0 <= j < i ==> #[trigger] self.users@[j].card_serial_number@ != card_serial_number@,
            decreases n - i,
        {
            let user = &self.users[i];
            if same_text(user.card_serial_number.as_str(), card_serial_number) {
                let id = UserId { id: user.id.id.clone() };
                assert(first_holder(self.users@, card_serial_number@, i as int));
                return Ok(id);
            }
            i = i + 1;
        }
        Err(DirectoryError::UserNotFound)
    }
}

/// Law: when no two members share a card, each member's card leads to that
/// member.
pub proof fn lemma_own_card_finds_holder(users: Seq<User>, i: int)
    requires
        0 <= i < users.len(),
        forall|a: int, b: int|
            0 <= a < users.len() && 0 <= b < users.len() && a != b ==> #[trigger] users[a].card_serial_number@
                != #[trigger] users[b].card_serial_number@,
    ensures
        card_known(users, users[i].card_serial_number@),
        first_holder(users, users[i].card_serial_number@, i),
{
}

} // verus!
