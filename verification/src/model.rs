//! Local user identities and their storage model.
//!
//! `UserStore` is the library's model of the `users` table: rows keyed by a
//! generated numeric identity (the row's position plus one), with emails
//! unique across rows. The storage collaborator enforces the same email
//! uniqueness with a unique index; the contracts here state the behaviour
//! the handshake engine relies on.

use vstd::prelude::*;
use crate::errors::FictError;

verus! {

/// Participant in the collaborative storytelling process. Automatically
/// created on first login through any provider.
#[derive(Clone, Debug)]
pub struct User {
    /// Numeric identity, assigned on first insert; `None` before the user
    /// has been persisted.
    pub id: Option<i64>,
    pub name: String,
    pub email: String,
}

/// A user row as the contracts see it: `(email, name)`, with the row's
/// identity given by its position plus one.
pub type UserRow = (Seq<char>, Seq<char>);

/// Some row holds `email`.
pub open spec fn has_email(rows: Seq<UserRow>, email: Seq<char>) -> bool {
    exists|i: int| 0 <= i < rows.len() && (#[trigger] rows[i]).0 == email
}

/// The position of the row holding `email`; meaningful only when
/// `has_email(rows, email)` holds and emails are unique.
pub open spec fn email_slot(rows: Seq<UserRow>, email: Seq<char>) -> int {
    choose|i: int| 0 <= i < rows.len() && (#[trigger] rows[i]).0 == email
}

/// No two rows hold the same email.
pub open spec fn unique_emails(rows: Seq<UserRow>) -> bool {
    forall|i: int, j: int|
        0 <= i < j < rows.len() ==> (#[trigger] rows[i]).0 != (#[trigger] rows[j]).0
}

/// The rows after resolving `(email, name)`: unchanged when a row already
/// holds `email`, extended by one new row otherwise.
pub open spec fn resolve_rows(rows: Seq<UserRow>, email: Seq<char>, name: Seq<char>) -> Seq<
    UserRow,
> {
    if has_email(rows, email) {
        rows
    } else {
        rows.push((email, name))
    }
}

/// The identity resolved for `email`: the holding row's, or the new row's.
pub open spec fn resolve_id(rows: Seq<UserRow>, email: Seq<char>) -> int {
    if has_email(rows, email) {
        email_slot(rows, email) + 1
    } else {
        rows.len() as int + 1
    }
}

/// The display name resolved for `email`: the stored one when the row
/// already exists (a repeat login does not refresh the name), the offered
/// one otherwise.
pub open spec fn resolve_name(rows: Seq<UserRow>, email: Seq<char>, name: Seq<char>) -> Seq<
    char,
> {
    if has_email(rows, email) {
        rows[email_slot(rows, email)].1
    } else {
        name
    }
}

/// The model of the `users` table.
pub struct UserStore {
    rows: Vec<User>,
}

impl UserStore {
    /// The stored rows, as `(email, name)` pairs in identity order.
    pub closed spec fn view(self) -> Seq<UserRow> {
        self.rows@.map_values(|u: User| (u.email@, u.name@))
    }

    /// Every row is persisted under the identity its position dictates,
    /// emails are unique, and one more row still gets a representable
    /// identity.
    pub closed spec fn wf(self) -> bool {
        &&& forall|i: int|
            0 <= i < self.rows@.len() ==> (#[trigger] self.rows@[i]).id == Some((i + 1) as i64)
        &&& unique_emails(self.view())
        &&& self.rows@.len() < 0x7fff_ffff_ffff_ffff
    }

    /// A well-formed table never exhausts the identity space.
    pub proof fn lemma_wf_bounds(self)
        requires
            self.wf(),
        ensures
            self@.len() < 0x7fff_ffff_ffff_ffff,
    {
    }

    /// An empty table.
    pub fn new() -> (r: UserStore)
        ensures
            r.wf(),
            r@ == Seq::<UserRow>::empty(),
    {
        let r = UserStore { rows: Vec::new() };
        proof {
            assert(r@ =~= Seq::<UserRow>::empty());
        }
        r
    }

    /// How many users exist.
    pub fn len(&self) -> (r: usize)
        ensures
            r == self@.len(),
    {
        self.rows.len()
    }

    /// Position of the row holding `email`, if any.
    fn index_of_email(&self, email: &String) -> (r: Option<usize>)
        ensures
            match r {
                Some(i) => i < self@.len() && self@[i as int].0 == email@,
                None => !has_email(self@, email@),
            },
    {
        let mut i: usize = 0;
        while i < self.rows.len()
            invariant
                i <= self.rows@.len(),
                forall|j: int| 0 <= j < i ==> (#[trigger] self@[j]).0 != email@,
                self@.len() == self.rows@.len(),
                forall|j: int|
                    0 <= j < self@.len() ==> #[trigger] self@[j] == (self.rows@[j].email@,
                    self.rows@[j].name@),
            decreases self.rows@.len() - i,
        {
            if self.rows[i].email.eq(email) {
                return Some(i);
            }
            i += 1;
        }
        None
    }

}

impl User {
    /// Discover an existing `User` by email address; if none exists, create,
    /// persist, and return a new one with the provided `name`. The returned
    /// user always carries a persisted identity, and a repeat resolution of
    /// the same email yields the same identity without adding a row. The one
    /// failure is the storage bound: a new row when no further identity is
    /// representable.
    pub fn find_or_create(store: &mut UserStore, email: String, name: String) -> (r: Result<
        User,
        FictError,
    >)
        requires
            old(store).wf(),
        ensures
            final(store).wf(),
            if has_email(old(store)@, email@) || old(store)@.len() + 1 < 0x7fff_ffff_ffff_ffff {
                &&& r is Ok
                &&& final(store)@ == resolve_rows(old(store)@, email@, name@)
                &&& ({
                    let u = r->Ok_0;
                    &&& u.id == Some(resolve_id(old(store)@, email@) as i64)
                    &&& u.email@ == email@
                    &&& u.name@ == resolve_name(old(store)@, email@, name@)
                })
            } else {
                r == Err::<User, FictError>(FictError::StorageError) && final(store)@ == old(
                    store,
                )@
            },
    {
        match store.index_of_email(&email) {
            Some(i) => {
                let row = &store.rows[i];
                let u = User { id: row.id, name: row.name.clone(), email: row.email.clone() };
                proof {
                    assert(has_email(store@, email@));
                    let s = email_slot(store@, email@);
                    assert(store@[s].0 == store@[i as int].0);
                    assert(s == i as int);
                    assert(final(store)@ =~= resolve_rows(old(store)@, email@, name@));
                }
                Ok(u)
            },
            None => {
                if store.rows.len() as u64 >= 0x7fff_ffff_ffff_fffeu64 {
                    return Err(FictError::StorageError);
                }
                let id: i64 = (store.rows.len() as i64) + 1;
                let stored = User { id: Some(id), name: name.clone(), email: email.clone() };
                store.rows.push(stored);
                let u = User { id: Some(id), name, email };
                proof {
                    assert(store@ =~= old(store)@.push((u.email@, u.name@)));
                    assert forall|a: int, b: int| 0 <= a < b < store@.len() implies (
                    #[trigger] store@[a]).0 != (#[trigger] store@[b]).0 by {
                        if b < store@.len() - 1 {
                            assert(old(store)@[a].0 != old(store)@[b].0);
                        } else {
                            assert(!has_email(old(store)@, email@));
                            assert(old(store)@[a].0 != email@);
                        }
                    }
                    assert(final(store)@ =~= resolve_rows(old(store)@, email@, name@));
                }
                Ok(u)
            },
        }
    }

    /// Look a user up by identity, as the session query interface needs.
    pub fn with_id(store: &UserStore, id: i64) -> (r: Result<User, FictError>)
        requires
            store.wf(),
        ensures
            if 1 <= id <= store@.len() {
                r matches Ok(u) && u.id == Some(id) && u.email@ == store@[id - 1].0 && u.name@
                    == store@[id - 1].1
            } else {
                r == Err::<User, FictError>(FictError::StorageError)
            },
    {
        if id >= 1 && id <= store.rows.len() as i64 {
            let i = (id - 1) as usize;
            let row = &store.rows[i];
            Ok(User { id: row.id, name: row.name.clone(), email: row.email.clone() })
        } else {
            Err(FictError::StorageError)
        }
    }
}

/// Law: user resolution is idempotent. Once `email` has been resolved (with
/// any offered name), resolving it again — with the same or a different
/// name — returns the same identity and adds no second row.
pub proof fn lemma_find_or_create_idempotent(
    rows: Seq<UserRow>,
    email: Seq<char>,
    name1: Seq<char>,
    name2: Seq<char>,
)
    requires
        unique_emails(rows),
    ensures
        ({
            let rows1 = resolve_rows(rows, email, name1);
            &&& resolve_rows(rows1, email, name2) == rows1
            &&& resolve_id(rows1, email) == resolve_id(rows, email)
            &&& rows1.len() <= rows.len() + 1
        }),
{
    let rows1 = resolve_rows(rows, email, name1);
    if has_email(rows, email) {
        assert(rows1 == rows);
    } else {
        assert(rows1 == rows.push((email, name1)));
        assert(rows1[rows.len() as int].0 == email);
        assert(has_email(rows1, email));
        let s = email_slot(rows1, email);
        if s < rows.len() {
            assert(rows[s].0 == email);
            assert(has_email(rows, email));
            assert(false);
        }
        assert(s == rows.len());
    }
}

} // verus!
