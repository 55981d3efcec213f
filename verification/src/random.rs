//! The cryptographically secure random source behind state tokens and
//! session tokens. Nothing can be promised of which values come out; the
//! contracts state only shape (length, alphabet).

use vstd::prelude::*;
use rand::Rng;
use rand::distributions::DistString;

verus! {

/// Length of the anti-forgery `state` parameter.
pub const STATE_LEN: usize = 20;

/// Holds of every character the random source may put into a state string:
/// an ASCII letter or digit.
pub open spec fn is_state_char(c: char) -> bool {
    ||| 'a' as u32 <= c as u32 && c as u32 <= 'z' as u32
    ||| 'A' as u32 <= c as u32 && c as u32 <= 'Z' as u32
    ||| '0' as u32 <= c as u32 && c as u32 <= '9' as u32
}

/// Relies on rand's `Alphanumeric.sample_string` over `OsRng`: exactly `len`
/// characters, each drawn from the ASCII letters and digits, from the
/// operating system's secure random source. Which string comes out is
/// deliberately unspecified.
#[verifier::external_body]
pub(crate) fn random_ascii_string(len: usize) -> (r: String)
    ensures
        r@.len() == len,
        forall|i: int| 0 <= i < r@.len() ==> is_state_char(#[trigger] r@[i]),
{
    rand::distributions::Alphanumeric.sample_string(&mut rand::rngs::OsRng, len)
}

/// Relies on rand's `Rng::gen::<i64>` over `OsRng`: a 64-bit value from the
/// operating system's secure random source. Nothing is promised of a random
/// value.
#[verifier::external_body]
pub(crate) fn random_i64() -> (r: i64) {
    rand::rngs::OsRng.gen::<i64>()
}

} // verus!
