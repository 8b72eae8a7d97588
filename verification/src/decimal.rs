//! Integers written out in base ten.

use vstd::prelude::*;
use vstd::string::StringExecFns;

verus! {

/// The character that stands for a single base-ten digit.
pub open spec fn digit_char(d: nat) -> char
    recommends
        d < 10,
{
    if d == 0 {
        '0'
    } else if d == 1 {
        '1'
    } else if d == 2 {
        '2'
    } else if d == 3 {
        '3'
    } else if d == 4 {
        '4'
    } else if d == 5 {
        '5'
    } else if d == 6 {
        '6'
    } else if d == 7 {
        '7'
    } else if d == 8 {
        '8'
    } else {
        '9'
    }
}

/// The digits of a natural number, most significant first, without
/// leading zeros; zero is the single digit `0`.
pub open spec fn digits(n: nat) -> Seq<char>
    decreases n,
{
    if n < 10 {
        seq![digit_char(n)]
    } else {
        digits(n / 10).push(digit_char(n % 10))
    }
}

/// An integer in base ten: a minus sign where it is negative, then the
/// digits of its magnitude.
pub open spec fn decimal(a: int) -> Seq<char> {
    if a < 0 {
        seq!['-'] + digits((-a) as nat)
    } else {
        digits(a as nat)
    }
}

/// The one-character string for a digit.
fn digit_str(d: u64) -> (s: &'static str)
    requires
        d < 10,
    ensures
        s@ == seq![digit_char(d as nat)],
{
    proof {
        reveal_strlit("0");
        reveal_strlit("1");
        reveal_strlit("2");
        reveal_strlit("3");
        reveal_strlit("4");
        reveal_strlit("5");
        reveal_strlit("6");
        reveal_strlit("7");
        reveal_strlit("8");
        reveal_strlit("9");
    }
    let s = if d == 0 {
        "0"
    } else if d == 1 {
        "1"
    } else if d == 2 {
        "2"
    } else if d == 3 {
        "3"
    } else if d == 4 {
        "4"
    } else if d == 5 {
        "5"
    } else if d == 6 {
        "6"
    } else if d == 7 {
        "7"
    } else if d == 8 {
        "8"
    } else {
        "9"
    };
    assert(s@ =~= seq![digit_char(d as nat)]);
    s
}

/// Appends the digits of `n` to `out`.
pub fn push_digits(out: &mut String, n: u64)
    ensures
        final(out)@ == old(out)@ + digits(n as nat),
    decreases n,
{
    if n >= 10 {
        push_digits(out, n / 10);
    }
    out.append(digit_str(n % 10));
    assert(final(out)@ =~= old(out)@ + digits(n as nat));
}

/// The magnitude of `a`, which for the least `i64` does not fit in an `i64`.
pub fn magnitude(a: i64) -> (m: u64)
    ensures
        m == if a < 0 { -a } else { a as int },
{
    if a < 0 {
        let below: i64 = -(a + 1);
        below as u64 + 1
    } else {
        a as u64
    }
}

/// Appends `a`, written in base ten, to `out`.
pub fn push_decimal(out: &mut String, a: i64)
    ensures
        final(out)@ == old(out)@ + decimal(a as int),
{
    if a < 0 {
        out.append("-");
        proof {
            reveal_strlit("-");
        }
    }
    push_digits(out, magnitude(a));
    assert(final(out)@ =~= old(out)@ + decimal(a as int));
}

} // verus!
