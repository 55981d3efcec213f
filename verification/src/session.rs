//! Bearer sessions and their storage model.
//!
//! `SessionStore` is the library's model of the `sessions` table: rows keyed
//! by a generated numeric identity (position plus one), each holding a
//! random 64-bit bearer token — unique across rows, as the storage
//! collaborator's unique index enforces — and the owning user's identity.

use vstd::prelude::*;
use crate::errors::FictError;
use crate::model::{User, UserStore};
use crate::numfmt::{dec_i64, i64_to_string};
use crate::random::random_i64;

verus! {

/// An active session of the site: issued once per successful handshake
/// completion, read (never mutated) thereafter.
#[derive(Clone, Copy, Debug, PartialEq, Eq, Structural)]
pub struct Session {
    /// Numeric identity of the session row.
    pub id: i64,
    /// The bearer token the client presents on later requests.
    pub token: i64,
    /// Identity of the owning user.
    pub user_id: i64,
}

/// A session row as the contracts see it: `(token, user_id)`, with the
/// row's identity given by its position plus one.
pub type SessionRow = (i64, i64);

/// Some row holds `token`.
pub open spec fn has_token(rows: Seq<SessionRow>, token: i64) -> bool {
    exists|i: int| 0 <= i < rows.len() && (#[trigger] rows[i]).0 == token
}

/// The position of the row holding `token`; meaningful only when
/// `has_token(rows, token)` holds and tokens are unique.
pub open spec fn token_slot(rows: Seq<SessionRow>, token: i64) -> int {
    choose|i: int| 0 <= i < rows.len() && (#[trigger] rows[i]).0 == token
}

/// No two rows hold the same bearer token.
pub open spec fn unique_tokens(rows: Seq<SessionRow>) -> bool {
    forall|i: int, j: int|
        0 <= i < j < rows.len() ==> (#[trigger] rows[i]).0 != (#[trigger] rows[j]).0
}

/// The model of the `sessions` table.
pub struct SessionStore {
    rows: Vec<Session>,
}

impl SessionStore {
    /// The stored rows, as `(token, user_id)` pairs in identity order.
    pub closed spec fn view(self) -> Seq<SessionRow> {
        self.rows@.map_values(|s: Session| (s.token, s.user_id))
    }

    /// Every row is persisted under the identity its position dictates,
    /// tokens are unique, and one more row still gets a representable
    /// identity.
    pub closed spec fn wf(self) -> bool {
        &&& forall|i: int|
            0 <= i < self.rows@.len() ==> (#[trigger] self.rows@[i]).id == i + 1
        &&& unique_tokens(self.view())
        &&& self.rows@.len() < 0x7fff_ffff_ffff_ffff
    }

    /// An empty table.
    pub fn new() -> (r: SessionStore)
        ensures
            r.wf(),
            r@ == Seq::<SessionRow>::empty(),
    {
        let r = SessionStore { rows: Vec::new() };
        proof {
            assert(r@ =~= Seq::<SessionRow>::empty());
        }
        r
    }

    /// How many sessions exist.
    pub fn len(&self) -> (r: usize)
        ensures
            r == self@.len(),
    {
        self.rows.len()
    }

    /// Position of the row holding `token`, if any.
    fn index_of_token(&self, token: i64) -> (r: Option<usize>)
        ensures
            match r {
                Some(i) => i < self@.len() && self@[i as int].0 == token,
                None => !has_token(self@, token),
            },
    {
        let mut i: usize = 0;
        while i < self.rows.len()
            invariant
                i <= self.rows@.len(),
                forall|j: int| 0 <= j < i ==> (#[trigger] self@[j]).0 != token,
                self@.len() == self.rows@.len(),
                forall|j: int|
                    0 <= j < self@.len() ==> #[trigger] self@[j] == (self.rows@[j].token,
                    self.rows@[j].user_id),
            decreases self.rows@.len() - i,
        {
            if self.rows[i].token == token {
                return Some(i);
            }
            i += 1;
        }
        None
    }

}

impl Session {
    /// Insert a session row carrying exactly `token` for the given user.
    /// Fails with `StorageError`, inserting nothing, when the token is
    /// already taken (the unique index rejecting the insert) or no further
    /// identity is representable. Requires a persisted user: assigning a
    /// session to an unpersisted user is a programming error, not a
    /// recoverable one.
    pub fn assign_with_token(store: &mut SessionStore, u: &User, token: i64) -> (r: Result<Session, FictError>)
        requires
            old(store).wf(),
            u.id is Some,
        ensures
            final(store).wf(),
            if !has_token(old(store)@, token) && old(store)@.len() + 1 < 0x7fff_ffff_ffff_ffff {
                &&& r matches Ok(s) && s.token == token && s.user_id == u.id->0 && s.id
                    == old(store)@.len() + 1
                &&& final(store)@ == old(store)@.push((token, u.id->0))
            } else {
                r == Err::<Session, FictError>(FictError::StorageError) && final(store)@
                    == old(store)@
            },
    {
        match store.index_of_token(token) {
            Some(_) => Err(FictError::StorageError),
            None => {
                if store.rows.len() as u64 >= 0x7fff_ffff_ffff_fffeu64 {
                    return Err(FictError::StorageError);
                }
                let user_id = match u.id {
                    Some(uid) => uid,
                    None => { return Err(FictError::StorageError); },
                };
                let id: i64 = (store.rows.len() as i64) + 1;
                let s = Session { id, token, user_id };
                store.rows.push(s);
                proof {
                    assert(store@ =~= old(store)@.push((token, user_id)));
                    assert forall|a: int, b: int| 0 <= a < b < store@.len() implies (
                    #[trigger] store@[a]).0 != (#[trigger] store@[b]).0 by {
                        if b < store@.len() - 1 {
                            assert(old(store)@[a].0 != old(store)@[b].0);
                        } else {
                            assert(!has_token(old(store)@, token));
                            assert(old(store)@[a].0 != token);
                        }
                    }
                }
                Ok(s)
            },
        }
    }

    /// Assign a new session to a newly logged-in user, under a bearer token
    /// drawn from the secure random source. Fails with `StorageError`,
    /// inserting nothing, when the drawn token collides with a stored one or
    /// no further identity is representable.
    pub fn assign(store: &mut SessionStore, u: &User) -> (r: Result<Session, FictError>)
        requires
            old(store).wf(),
            u.id is Some,
        ensures
            final(store).wf(),
            match r {
                Ok(s) => {
                    &&& s.user_id == u.id->0
                    &&& s.id == old(store)@.len() + 1
                    &&& !has_token(old(store)@, s.token)
                    &&& final(store)@ == old(store)@.push((s.token, u.id->0))
                },
                Err(e) => e == FictError::StorageError && final(store)@ == old(store)@,
            },
    {
        let token = random_i64();
        Session::assign_with_token(store, u, token)
    }

    /// Given a bearer token from a request, locate the session it belongs
    /// to: the matching session when one exists, an explicit "not found"
    /// when none does — distinguished from a storage failure, which this
    /// model never raises.
    pub fn validate(store: &SessionStore, token: i64) -> (r: Result<Option<Session>, FictError>)
        requires
            store.wf(),
        ensures
            r is Ok,
            match r->Ok_0 {
                Some(s) => {
                    &&& has_token(store@, token)
                    &&& s.token == token
                    &&& s.id == token_slot(store@, token) + 1
                    &&& s.user_id == store@[token_slot(store@, token)].1
                },
                None => !has_token(store@, token),
            },
    {
        match store.index_of_token(token) {
            Some(i) => {
                let s = store.rows[i];
                proof {
                    let k = token_slot(store@, token);
                    assert(store@[k].0 == store@[i as int].0);
                    assert(k == i as int);
                }
                Ok(Some(s))
            },
            None => Ok(None),
        }
    }

    /// Access the user this session belongs to.
    pub fn user(&self, users: &UserStore) -> (r: Result<User, FictError>)
        requires
            users.wf(),
        ensures
            if 1 <= self.user_id <= users@.len() {
                r matches Ok(u) && u.id == Some(self.user_id) && u.email@ == users@[self.user_id
                    - 1].0 && u.name@ == users@[self.user_id - 1].1
            } else {
                r == Err::<User, FictError>(FictError::StorageError)
            },
    {
        User::with_id(users, self.user_id)
    }

    /// A loggable rendering of the session that shows its identities but
    /// never the bearer token.
    pub fn describe(&self) -> (r: String)
        ensures
            r@ == "Session(id=["@ + dec_i64(self.id as int) + "] user_id=["@ + dec_i64(
                self.user_id as int,
            ) + "] token=[..])"@,
    {
        let mut s = String::from_str("Session(id=[");
        s.append(i64_to_string(self.id).as_str());
        s.append("] user_id=[");
        s.append(i64_to_string(self.user_id).as_str());
        s.append("] token=[..])");
        proof {
            assert(s@ =~= "Session(id=["@ + dec_i64(self.id as int) + "] user_id=["@ + dec_i64(
                self.user_id as int,
            ) + "] token=[..])"@);
        }
        s
    }
}

} // verus!
