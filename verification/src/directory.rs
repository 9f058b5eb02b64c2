//! The user directory: the keyed store of identity records.
//!
//! Records are looked up by id and by email; emails are unique
//! case-insensitively, and the store itself is the authority on
//! uniqueness — `insert` reports `DuplicateEmail` from its own check,
//! not from any pre-check a caller may have made.

use vstd::prelude::*;
use vstd::string::*;
use crate::model::{Role, User};

verus! {

pub uninterp spec fn lower_of(s: Seq<char>) -> Seq<char>;

/// The lowercase form of a string, for case-insensitive email
/// comparison.
///
/// Relies on str::to_lowercase: the result depends on the characters
/// alone.
#[verifier::external_body]
fn lowercase(s: &str) -> (r: String)
    ensures
        r@ == lower_of(s@),
{
    s.to_lowercase()
}

/// Why an insert was refused.
#[derive(Clone, Copy, Debug, PartialEq, Eq, Structural)]
pub enum DirectoryError {
    /// A record with the same email, compared case-insensitively,
    /// already exists.
    DuplicateEmail,
}

/// The store of user records: ids unique and below the next free id,
/// emails unique case-insensitively.
pub struct UserDirectory {
    users: Vec<User>,
    next_id: u64,
}

impl UserDirectory {
    /// The stored records, in insertion order.
    pub closed spec fn spec_users(&self) -> Seq<User> {
        self.users@
    }

    /// The id the next inserted record will get.
    pub closed spec fn spec_next_id(&self) -> u64 {
        self.next_id
    }

    /// Well-formedness: pairwise distinct ids, pairwise distinct
    /// lowercase emails, and every id below the next free one.
    pub open spec fn wf(&self) -> bool {
        &&& forall|i: int, j: int|
            #![trigger self.spec_users()[i], self.spec_users()[j]]
            0 <= i < j < self.spec_users().len() ==> self.spec_users()[i].id
                != self.spec_users()[j].id && lower_of(self.spec_users()[i].email@) != lower_of(
                self.spec_users()[j].email@,
            )
        &&& forall|i: int|
            0 <= i < self.spec_users().len() ==> #[trigger] self.spec_users()[i].id
                < self.spec_next_id()
    }

    /// Whether some record carries `id`.
    pub open spec fn id_taken(&self, id: u64) -> bool {
        exists|i: int|
            0 <= i < self.spec_users().len() && #[trigger] self.spec_users()[i].id == id
    }

    /// Whether some record's email has lowercase form `email_lower`.
    pub open spec fn email_taken(&self, email_lower: Seq<char>) -> bool {
        exists|i: int|
            0 <= i < self.spec_users().len() && lower_of(
                #[trigger] self.spec_users()[i].email@,
            ) == email_lower
    }

    /// The record carrying `id`; well-defined when ids are unique.
    pub open spec fn spec_user_with_id(&self, id: u64) -> User
        recommends
            self.id_taken(id),
    {
        self.spec_users()[choose|i: int|
            0 <= i < self.spec_users().len() && self.spec_users()[i].id == id]
    }

    /// The record whose email has lowercase form `email_lower`;
    /// well-defined when emails are unique.
    pub open spec fn spec_user_with_email(&self, email_lower: Seq<char>) -> User
        recommends
            self.email_taken(email_lower),
    {
        self.spec_users()[choose|i: int|
            0 <= i < self.spec_users().len() && lower_of(self.spec_users()[i].email@)
                == email_lower]
    }

    /// An empty directory; ids start at 1.
    pub fn new() -> (r: UserDirectory)
        ensures
            r.spec_users() == Seq::<User>::empty(),
            r.spec_next_id() == 1,
            r.wf(),
    {
        UserDirectory { users: Vec::new(), next_id: 1 }
    }

    /// The id the next inserted record will get.
    pub fn next_id(&self) -> (r: u64)
        ensures
            r == self.spec_next_id(),
    {
        self.next_id
    }

    /// How many records are stored.
    pub fn len(&self) -> (r: usize)
        ensures
            r == self.spec_users().len(),
    {
        self.users.len()
    }

    /// The record at a position, in insertion order.
    pub fn get(&self, i: usize) -> (r: &User)
        requires
            i < self.spec_users().len(),
        ensures
            *r == self.spec_users()[i as int],
    {
        &self.users[i]
    }

    /// Look a record up by email, case-insensitively: exactly the
    /// stored record whose lowercase email matches, if one does.
    pub fn find_by_email(&self, email: &str) -> (r: Option<&User>)
        requires
            self.wf(),
        ensures
            match r {
                Some(u) => self.email_taken(lower_of(email@)) && *u == self.spec_user_with_email(
                    lower_of(email@),
                ),
                None => !self.email_taken(lower_of(email@)),
            },
    {
        let query = lowercase(email);
        let n = self.users.len();
        let mut i: usize = 0;
        while i < n
            invariant
                self.wf(),
                n == self.spec_users().len(),
                i <= n,
                query@ == lower_of(email@),
                forall|j: int|
                    0 <= j < i ==> lower_of(#[trigger] self.spec_users()[j].email@) != lower_of(
                        email@,
                    ),
            decreases n - i,
        {
            let candidate = lowercase(self.users[i].email.as_str());
            if candidate == query {
                proof {
                    let k = choose|k: int|
                        0 <= k < self.spec_users().len() && lower_of(self.spec_users()[k].email@)
                            == lower_of(email@);
                    assert(k == i);
                }
                return Some(&self.users[i]);
            }
            i = i + 1;
        }
        None
    }

    /// Look a record up by id: exactly the stored record carrying it,
    /// if one does.
    pub fn find_by_id(&self, id: u64) -> (r: Option<&User>)
        requires
            self.wf(),
        ensures
            match r {
                Some(u) => self.id_taken(id) && *u == self.spec_user_with_id(id),
                None => !self.id_taken(id),
            },
    {
        let n = self.users.len();
        let mut i: usize = 0;
        while i < n
            invariant
                self.wf(),
                n == self.spec_users().len(),
                i <= n,
                forall|j: int| 0 <= j < i ==> #[trigger] self.spec_users()[j].id != id,
            decreases n - i,
        {
            if self.users[i].id == id {
                proof {
                    let k = choose|k: int|
                        0 <= k < self.spec_users().len() && self.spec_users()[k].id == id;
                    assert(k == i);
                }
                return Some(&self.users[i]);
            }
            i = i + 1;
        }
        None
    }

    /// Insert a fresh standard, unverified record, or report
    /// `DuplicateEmail` if the email's lowercase form is already
    /// stored. The store's own check is authoritative: the result does
    /// not depend on any pre-check by the caller.
    pub fn insert(&mut self, name: &str, email: &str, password_hash: &str, now: u64) -> (r: Result<
        u64,
        DirectoryError,
    >)
        requires
            old(self).wf(),
            old(self).spec_next_id() < u64::MAX,
        ensures
            final(self).wf(),
            old(self).email_taken(lower_of(email@)) ==> r == Err::<u64, DirectoryError>(
                DirectoryError::DuplicateEmail,
            ) && final(self).spec_users() == old(self).spec_users() && final(self).spec_next_id()
                == old(self).spec_next_id(),
            !old(self).email_taken(lower_of(email@)) ==> r == Ok::<u64, DirectoryError>(
                old(self).spec_next_id(),
            ) && final(self).email_taken(lower_of(email@)) && {
                let added = final(self).spec_users().last();
                &&& final(self).spec_users() == old(self).spec_users().push(added)
                &&& final(self).spec_next_id() == old(self).spec_next_id() + 1
                &&& added.id == old(self).spec_next_id()
                &&& added.name@ == name@
                &&& added.email@ == email@
                &&& added.password_hash@ == password_hash@
                &&& added.role == Role::Standard
                &&& !added.verified
                &&& added.created_at == now
                &&& added.updated_at == now
            },
    {
        if self.find_by_email(email).is_some() {
            return Err(DirectoryError::DuplicateEmail);
        }
        let id = self.next_id;
        let user = User {
            id,
            name: String::from_str(name),
            email: String::from_str(email),
            password_hash: String::from_str(password_hash),
            role: Role::Standard,
            verified: false,
            created_at: now,
            updated_at: now,
        };
        self.users.push(user);
        self.next_id = id + 1;
        proof {
            let prev = old(self).spec_users();
            let cur = self.spec_users();
            assert(cur =~= prev.push(cur.last()));
            assert(lower_of(cur[cur.len() - 1].email@) == lower_of(email@));
            assert forall|i: int, j: int| 0 <= i < j < cur.len() implies cur[i].id != cur[j].id
                && lower_of(cur[i].email@) != lower_of(cur[j].email@) by {
                if j < cur.len() - 1 {
                    assert(cur[i] == prev[i] && cur[j] == prev[j]);
                } else {
                    assert(cur[i] == prev[i]);
                    assert(prev[i].id < id);
                    assert(lower_of(prev[i].email@) != lower_of(email@));
                }
            }
        }
        Ok(id)
    }
}

/// `u` with its role replaced; every other field kept.
pub open spec fn with_role(u: User, role: Role) -> User {
    User { role, ..u }
}

impl UserDirectory {
    /// Update the role of the record carrying `id`; `false` if there
    /// is none. No other record and no other field changes.
    pub fn set_role(&mut self, id: u64, role: Role) -> (r: bool)
        requires
            old(self).wf(),
        ensures
            final(self).wf(),
            final(self).spec_next_id() == old(self).spec_next_id(),
            final(self).spec_users().len() == old(self).spec_users().len(),
            r == old(self).id_taken(id),
            forall|j: int|
                0 <= j < old(self).spec_users().len() ==> #[trigger] final(self).spec_users()[j]
                    == if old(self).spec_users()[j].id == id {
                    with_role(old(self).spec_users()[j], role)
                } else {
                    old(self).spec_users()[j]
                },
    {
        let n = self.users.len();
        let mut i: usize = 0;
        while i < n
            invariant
                old(self).wf(),
                *self == *old(self),
                n == self.spec_users().len(),
                i <= n,
                forall|j: int| 0 <= j < i ==> #[trigger] self.spec_users()[j].id != id,
            decreases n - i,
        {
            if self.users[i].id == id {
                self.users[i].role = role;
                proof {
                    let prev = old(self).spec_users();
                    let cur = self.spec_users();
                    assert(cur == prev.update(i as int, with_role(prev[i as int], role)));
                    assert forall|p: int, q: int| 0 <= p < q < cur.len() implies cur[p].id
                        != cur[q].id && lower_of(cur[p].email@) != lower_of(cur[q].email@) by {
                        assert(prev[p].id != prev[q].id && lower_of(prev[p].email@) != lower_of(
                            prev[q].email@,
                        ));
                        assert(cur[p].id == prev[p].id && cur[q].id == prev[q].id);
                        assert(cur[p].email == prev[p].email && cur[q].email == prev[q].email);
                    }
                    assert forall|j: int|
                        0 <= j < prev.len() implies #[trigger] cur[j] == if prev[j].id == id {
                        with_role(prev[j], role)
                    } else {
                        prev[j]
                    } by {
                        if j != i {
                            assert(prev[j].id != id);
                        }
                    }
                }
                return true;
            }
            i = i + 1;
        }
        false
    }
}

/// Once a record with email `e` is in the directory, every email with
/// the same lowercase form is taken — so a second registration of the
/// same email must be refused as `DuplicateEmail` by `insert`'s
/// contract.
pub proof fn lemma_email_taken_after_insert(d: UserDirectory, u: User, e: Seq<char>)
    requires
        d.spec_users().len() > 0,
        d.spec_users().last() == u,
        lower_of(e) == lower_of(u.email@),
    ensures
        d.email_taken(lower_of(e)),
{
    let n = d.spec_users().len() - 1;
    assert(0 <= n < d.spec_users().len() && lower_of(d.spec_users()[n].email@) == lower_of(e));
}

} // verus!
