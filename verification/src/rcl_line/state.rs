//! The persistent state of the credit line: one record per user.

use vstd::prelude::*;

verus! {

/// What is known of a user.
#[derive(Clone, Copy, Debug, PartialEq, Eq)]
pub struct RclUser {
    pub trust_score: u8,
    pub debt: u128,
}

/// A user's address and record.
#[derive(Clone, Debug, PartialEq, Eq)]
pub struct Borrower {
    pub address: String,
    pub user: RclUser,
}

pub struct BorrowerView {
    pub address: Seq<char>,
    pub user: RclUser,
}

impl View for Borrower {
    type V = BorrowerView;

    open spec fn view(&self) -> BorrowerView {
        BorrowerView { address: self.address@, user: self.user }
    }
}

/// The users of a list, as values.
pub open spec fn users_view(users: Seq<Borrower>) -> Seq<BorrowerView> {
    users.map_values(|b: Borrower| b@)
}

/// No address occurs twice.
pub open spec fn distinct_users(users: Seq<BorrowerView>) -> bool {
    forall|i: int, j: int|
        0 <= i < j < users.len() ==> (#[trigger] users[i]).address != (#[trigger] users[j]).address
}

/// Whether `address` has a record.
pub open spec fn has_user(users: Seq<BorrowerView>, address: Seq<char>) -> bool {
    exists|i: int| 0 <= i < users.len() && (#[trigger] users[i]).address == address
}

/// Where the record of `address` stands, if it has one.
pub open spec fn user_index(users: Seq<BorrowerView>, address: Seq<char>) -> int {
    choose|i: int| 0 <= i < users.len() && (#[trigger] users[i]).address == address
}

/// The record of `address`, if it has one.
pub open spec fn user_at(users: Seq<BorrowerView>, address: Seq<char>) -> Option<RclUser> {
    if has_user(users, address) {
        Some(users[user_index(users, address)].user)
    } else {
        None
    }
}

/// The users after `user` was stored for `address`: in place where the
/// address has a record, else as a new last record.
pub open spec fn with_user(users: Seq<BorrowerView>, address: Seq<char>, user: RclUser) -> Seq<
    BorrowerView,
> {
    if has_user(users, address) {
        users.update(user_index(users, address), BorrowerView { address, user })
    } else {
        users.push(BorrowerView { address, user })
    }
}

/// The credit line.
pub struct CreditLine {
    pub(crate) users: Vec<Borrower>,
}

impl View for CreditLine {
    type V = Seq<BorrowerView>;

    open(crate) spec fn view(&self) -> Seq<BorrowerView> {
        users_view(self.users@)
    }
}

/// Storing a record keeps the addresses distinct, makes it the record of its
/// address, and leaves the records of all other addresses as they were.
pub proof fn lemma_with_user(users: Seq<BorrowerView>, address: Seq<char>, user: RclUser)
    requires
        distinct_users(users),
    ensures
        distinct_users(with_user(users, address, user)),
        user_at(with_user(users, address, user), address) == Some(user),
        forall|other: Seq<char>|
            other != address ==> #[trigger] user_at(with_user(users, address, user), other)
                == user_at(users, other),
{
    let after = with_user(users, address, user);
    if has_user(users, address) {
        let i = user_index(users, address);
        assert(after[i].address == address);
        assert(user_index(after, address) == i);
    } else {
        let n = users.len() as int;
        assert(after[n].address == address);
        assert(user_index(after, address) == n);
    }
    assert forall|other: Seq<char>| other != address implies #[trigger] user_at(after, other)
        == user_at(users, other) by {
        if has_user(users, other) {
            let k = user_index(users, other);
            assert(after[k].address == other);
            assert(user_index(after, other) == k);
        }
        if has_user(after, other) {
            let k = user_index(after, other);
            assert(users[k].address == other);
        }
    }
}

fn find_user(users: &Vec<Borrower>, address: &String) -> (r: Option<usize>)
    ensures
        match r {
            Some(i) => i < users.len() && users[i as int].address@ == address@ && has_user(
                users_view(users@),
                address@,
            ),
            None => !has_user(users_view(users@), address@),
        },
        distinct_users(users_view(users@)) && r is Some ==> r->Some_0 == user_index(
            users_view(users@),
            address@,
        ),
{
    let ghost views = users_view(users@);
    let mut i: usize = 0;
    while i < users.len()
        invariant
            i <= users.len(),
            views == users_view(users@),
            forall|j: int| 0 <= j < i ==> (#[trigger] views[j]).address != address@,
        decreases users.len() - i,
    {
        if users[i].address == *address {
            assert(views[i as int].address == address@);
            return Some(i);
        }
        i = i + 1;
    }
    None
}

fn users_distinct(users: &Vec<Borrower>) -> (r: bool)
    ensures
        r == distinct_users(users_view(users@)),
{
    let ghost views = users_view(users@);
    let mut j: usize = 0;
    while j < users.len()
        invariant
            j <= users.len(),
            views == users_view(users@),
            forall|a: int, b: int|
                0 <= a < b < j ==> (#[trigger] views[a]).address != (#[trigger] views[b]).address,
        decreases users.len() - j,
    {
        let mut i: usize = 0;
        while i < j
            invariant
                i <= j < users.len(),
                views == users_view(users@),
                forall|a: int|
                    0 <= a < i ==> (#[trigger] views[a]).address != views[j as int].address,
            decreases j - i,
        {
            if users[i].address == users[j].address {
                assert(views[i as int].address == views[j as int].address);
                return false;
            }
            i = i + 1;
        }
        j = j + 1;
    }
    true
}

impl CreditLine {
    /// Users are told apart by their address.
    pub open spec fn wf(&self) -> bool {
        distinct_users(self@)
    }

    /// A credit line without users.
    pub fn new() -> (r: CreditLine)
        ensures
            r.wf(),
            r@ == Seq::<BorrowerView>::empty(),
    {
        let r = CreditLine { users: Vec::new() };
        assert(r@ == Seq::<BorrowerView>::empty());
        r
    }

    /// The credit line made of stored records, where no address occurs
    /// twice.
    pub fn from_parts(users: Vec<Borrower>) -> (r: Option<CreditLine>)
        ensures
            r is Some <==> distinct_users(users_view(users@)),
            r matches Some(line) ==> line.wf() && line@ == users_view(users@),
    {
        if !users_distinct(&users) {
            return None;
        }
        Some(CreditLine { users })
    }

    /// The records, in the order of their first interaction.
    pub fn users(&self) -> (r: &Vec<Borrower>)
        ensures
            users_view(r@) == self@,
    {
        &self.users
    }

    /// The record of `address`, if it has one.
    pub fn load(&self, address: &String) -> (r: Option<RclUser>)
        requires
            self.wf(),
        ensures
            r == user_at(self@, address@),
    {
        match find_user(&self.users, address) {
            Some(i) => Some(self.users[i].user),
            None => None,
        }
    }

    /// Stores `user` for `address`.
    pub fn save(&mut self, address: &String, user: RclUser)
        requires
            old(self).wf(),
        ensures
            final(self).wf(),
            final(self)@ == with_user(old(self)@, address@, user),
    {
        let ghost before = self@;
        proof {
            lemma_with_user(before, address@, user);
        }
        match find_user(&self.users, address) {
            Some(i) => {
                self.users.set(i, Borrower { address: address.clone(), user });
                assert(self@ =~= before.update(
                    i as int,
                    BorrowerView { address: address@, user },
                ));
            },
            None => {
                self.users.push(Borrower { address: address.clone(), user });
                assert(self@ =~= before.push(BorrowerView { address: address@, user }));
            },
        }
    }
}

} // verus!
