//! Decimal formatting of the numeric identities and tokens that appear in
//! response bodies.

use vstd::prelude::*;

verus! {

/// The decimal digit character for `d`.
pub open spec fn digit_char(d: int) -> char {
    if d == 0 {
        '0'
    } else if d == 1 {
        '1'
    } else if d == 2 {
        '2'
    } else if d == 3 {
        '3'
    } else if d == 4 {
        '4'
    } else if d == 5 {
        '5'
    } else if d == 6 {
        '6'
    } else if d == 7 {
        '7'
    } else if d == 8 {
        '8'
    } else {
        '9'
    }
}

/// Decimal representation of a non-negative number, most significant digit
/// first, with no leading zeroes (`0` itself is "0").
pub open spec fn dec_rep(n: nat) -> Seq<char>
    decreases n,
{
    if n < 10 {
        seq![digit_char(n as int)]
    } else {
        dec_rep(n / 10) + seq![digit_char((n % 10) as int)]
    }
}

/// Decimal representation of a signed number: a minus sign before the
/// magnitude when negative.
pub open spec fn dec_i64(n: int) -> Seq<char> {
    if n < 0 {
        seq!['-'] + dec_rep((-n) as nat)
    } else {
        dec_rep(n as nat)
    }
}

/// Append the digit character for `d`.
fn push_digit(s: &mut String, d: u64)
    requires
        d < 10,
    ensures
        final(s)@ == old(s)@ + seq![digit_char(d as int)],
{
    let c: &str = match d {
        0 => "0",
        1 => "1",
        2 => "2",
        3 => "3",
        4 => "4",
        5 => "5",
        6 => "6",
        7 => "7",
        8 => "8",
        _ => "9",
    };
    proof {
        reveal_strlit("0");
        reveal_strlit("1");
        reveal_strlit("2");
        reveal_strlit("3");
        reveal_strlit("4");
        reveal_strlit("5");
        reveal_strlit("6");
        reveal_strlit("7");
        reveal_strlit("8");
        reveal_strlit("9");
        assert(c@ =~= seq![digit_char(d as int)]);
    }
    s.append(c);
}

/// Append the decimal representation of `n`.
fn push_dec(s: &mut String, n: u64)
    ensures
        final(s)@ == old(s)@ + dec_rep(n as nat),
    decreases n,
{
    if n >= 10 {
        push_dec(s, n / 10);
    }
    push_digit(s, n % 10);
    proof {
        assert(s@ =~= old(s)@ + dec_rep(n as nat));
    }
}

/// Format a 64-bit signed value in decimal.
pub fn i64_to_string(n: i64) -> (r: String)
    ensures
        r@ == dec_i64(n as int),
{
    let mut s = String::new();
    if n < 0 {
        s.append("-");
        let m: u64 = ((-(n + 1)) as u64) + 1;
        proof {
            assert(m == -(n as int));
        }
        push_dec(&mut s, m);
        proof {
            reveal_strlit("-");
            assert(s@ =~= dec_i64(n as int));
        }
    } else {
        push_dec(&mut s, n as u64);
        proof {
            assert(s@ =~= dec_i64(n as int));
        }
    }
    s
}

} // verus!
