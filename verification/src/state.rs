//! Per-provider store of outstanding anti-forgery `state` tokens.
//!
//! A state string is held if and only if it was generated and not yet
//! successfully validated: entries are added on redirect issuance and
//! removed exactly once, atomically with the membership check, on callback
//! validation. One instance exists per provider; callers serialize access
//! with a mutex held only for the duration of a call, and each random draw
//! happens under the same exclusive borrow.

use vstd::prelude::*;
use crate::random::{random_ascii_string, is_state_char, STATE_LEN};

verus! {

/// Mutable state shared among the request handlers installed by one
/// provider: the set of currently valid, not-yet-consumed state strings.
/// A state whose login is abandoned is kept indefinitely: no expiry or
/// eviction is applied here.
pub struct Shared {
    valid_states: Vec<String>,
}

impl Shared {
    /// The set of outstanding, not-yet-consumed state strings.
    pub closed spec fn states(self) -> Set<Seq<char>> {
        Set::new(
            |x: Seq<char>|
                exists|i: int|
                    0 <= i < self.valid_states@.len() && #[trigger] self.valid_states@[i]@ == x,
        )
    }

    /// No state string is held twice.
    pub closed spec fn wf(self) -> bool {
        forall|i: int, j: int|
            0 <= i < j < self.valid_states@.len() ==> #[trigger] self.valid_states@[i]@
                != #[trigger] self.valid_states@[j]@
    }

    /// A fresh store with no outstanding states.
    pub fn new() -> (r: Shared)
        ensures
            r.wf(),
            r.states() == Set::<Seq<char>>::empty(),
    {
        let r = Shared { valid_states: Vec::new() };
        proof {
            assert(r.states() =~= Set::<Seq<char>>::empty());
        }
        r
    }

    /// Position of `state` among the held strings, if it is held.
    fn index_of(&self, state: &String) -> (r: Option<usize>)
        ensures
            match r {
                Some(i) => i < self.valid_states@.len() && self.valid_states@[i as int]@
                    == state@,
                None => !self.states().contains(state@),
            },
    {
        let mut i: usize = 0;
        while i < self.valid_states.len()
            invariant
                i <= self.valid_states@.len(),
                forall|j: int| 0 <= j < i ==> #[trigger] self.valid_states@[j]@ != state@,
            decreases self.valid_states@.len() - i,
        {
            if self.valid_states[i].eq(state) {
                return Some(i);
            }
            i += 1;
        }
        None
    }

    /// Generate an unguessable random string for use as a `state` parameter
    /// and remember it as valid. The set of outstanding states grows by (at
    /// most) this one string.
    pub fn generate_state(&mut self) -> (r: String)
        requires
            old(self).wf(),
        ensures
            final(self).wf(),
            r@.len() == STATE_LEN,
            forall|i: int| 0 <= i < r@.len() ==> is_state_char(#[trigger] r@[i]),
            final(self).states() == old(self).states().insert(r@),
    {
        let state = random_ascii_string(STATE_LEN);
        match self.index_of(&state) {
            Some(i) => {
                proof {
                    assert(self.states().contains(state@));
                    assert(self.states() =~= old(self).states().insert(state@));
                }
            },
            None => {
                self.valid_states.push(state.clone());
                proof {
                    let pre = old(self).valid_states@;
                    let post = self.valid_states@;
                    assert forall|x: Seq<char>| self.states().contains(x) implies old(
                        self,
                    ).states().insert(state@).contains(x) by {
                        let i = choose|i: int| 0 <= i < post.len() && #[trigger] post[i]@ == x;
                        if i < pre.len() {
                            assert(pre[i]@ == x);
                        }
                    }
                    assert forall|x: Seq<char>|
                        old(self).states().insert(state@).contains(x) implies self.states().contains(
                        x,
                    ) by {
                        if old(self).states().contains(x) {
                            let i = choose|i: int|
                                0 <= i < pre.len() && #[trigger] pre[i]@ == x;
                            assert(post[i]@ == x);
                        } else {
                            assert(post[post.len() - 1]@ == x);
                        }
                    }
                    assert(self.states() =~= old(self).states().insert(state@));
                }
            },
        }
        state
    }

    /// Verify that `state` is currently valid, and consume it if so: returns
    /// true and removes `state` if and only if it is presently held; returns
    /// false, removing nothing, otherwise. Check and removal are one
    /// operation, so a replayed or guessed state succeeds at most once.
    pub fn validate_state(&mut self, state: &str) -> (r: bool)
        requires
            old(self).wf(),
        ensures
            final(self).wf(),
            r == old(self).states().contains(state@),
            final(self).states() == old(self).states().remove(state@),
    {
        let candidate = String::from_str(state);
        match self.index_of(&candidate) {
            Some(i) => {
                self.valid_states.remove(i);
                proof {
                    let pre = old(self).valid_states@;
                    let post = self.valid_states@;
                    assert(post == pre.remove(i as int));
                    assert forall|x: Seq<char>| self.states().contains(x) implies old(
                        self,
                    ).states().remove(state@).contains(x) by {
                        let j = choose|j: int| 0 <= j < post.len() && #[trigger] post[j]@ == x;
                        let k: int = if j < i { j } else { j + 1 };
                        assert(pre[k]@ == x);
                        assert(k != i);
                        assert(pre[k]@ != pre[i as int]@);
                    }
                    assert forall|x: Seq<char>|
                        old(self).states().remove(state@).contains(x) implies self.states().contains(
                        x,
                    ) by {
                        let k = choose|k: int| 0 <= k < pre.len() && #[trigger] pre[k]@ == x;
                        assert(pre[k]@ != pre[i as int]@ || k == i);
                        let j: int = if k < i { k } else { k - 1 };
                        assert(post[j]@ == x);
                    }
                    assert(self.states() =~= old(self).states().remove(state@));
                }
                true
            },
            None => {
                proof {
                    assert(self.states() =~= old(self).states().remove(state@));
                }
                false
            },
        }
    }
}

/// Law: a generated state is single-use. After `s` enters the set of
/// outstanding states, it is a member, so the first validation of `s`
/// succeeds and removes it; after that removal `s` is no longer a member,
/// and with no intervening generation every further validation of `s` finds
/// nothing, removes nothing, and fails.
pub proof fn lemma_state_single_use(states: Set<Seq<char>>, s: Seq<char>)
    ensures
        states.insert(s).contains(s),
        !states.insert(s).remove(s).contains(s),
        states.insert(s).remove(s).remove(s) == states.insert(s).remove(s),
{
    assert(states.insert(s).remove(s).remove(s) =~= states.insert(s).remove(s));
}

} // verus!
