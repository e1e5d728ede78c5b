//! Text for the snapshot: integers in decimal, balances with four
//! fractional digits, and the row of one account.

use vstd::prelude::*;
use crate::account::{total, AccountState};

verus! {

/// The character of one decimal digit.
pub open spec fn digit(d: nat) -> char {
    if d == 0 {
        '0'
    } else if d == 1 {
        '1'
    } else if d == 2 {
        '2'
    } else if d == 3 {
        '3'
    } else if d == 4 {
        '4'
    } else if d == 5 {
        '5'
    } else if d == 6 {
        '6'
    } else if d == 7 {
        '7'
    } else if d == 8 {
        '8'
    } else {
        '9'
    }
}

/// A natural number in decimal, most significant digit first, without
/// leading zeros; zero is the single digit `0`.
pub open spec fn digits(n: nat) -> Seq<char>
    decreases n,
{
    if n < 10 {
        seq![digit(n)]
    } else {
        digits(n / 10).push(digit(n % 10))
    }
}

/// The four fractional digits of a count of ten-thousandths below one unit.
pub open spec fn fraction(f: nat) -> Seq<char> {
    seq![digit(f / 1000 % 10), digit(f / 100 % 10), digit(f / 10 % 10), digit(f % 10)]
}

/// The magnitude of an integer.
pub open spec fn magnitude(v: int) -> nat {
    if v < 0 {
        (-v) as nat
    } else {
        v as nat
    }
}

/// A count of ten-thousandths as a decimal with exactly four fractional
/// digits: a minus sign where the count is negative, the whole units, a
/// point, and the fraction.
pub open spec fn fixed4(v: int) -> Seq<char> {
    let sign = if v < 0 {
        seq!['-']
    } else {
        Seq::<char>::empty()
    };
    sign + digits(magnitude(v) / 10000) + seq!['.'] + fraction(magnitude(v) % 10000)
}

/// The text of a boolean.
pub open spec fn truth(b: bool) -> Seq<char> {
    if b {
        "true"@
    } else {
        "false"@
    }
}

/// The row of one account: client, available, held, total, locked.
pub open spec fn row(s: AccountState) -> Seq<char> {
    digits(s.client as nat) + ", "@ + fixed4(s.available) + ", "@ + fixed4(s.held) + ", "@
        + fixed4(total(s)) + ", "@ + truth(s.locked)
}

fn digit_str(d: u128) -> (s: &'static str)
    requires
        d < 10,
    ensures
        s@ == seq![digit(d as nat)],
{
    proof {
        reveal_strlit("0");
        reveal_strlit("1");
        reveal_strlit("2");
        reveal_strlit("3");
        reveal_strlit("4");
        reveal_strlit("5");
        reveal_strlit("6");
        reveal_strlit("7");
        reveal_strlit("8");
        reveal_strlit("9");
    }
    let s = if d == 0 {
        "0"
    } else if d == 1 {
        "1"
    } else if d == 2 {
        "2"
    } else if d == 3 {
        "3"
    } else if d == 4 {
        "4"
    } else if d == 5 {
        "5"
    } else if d == 6 {
        "6"
    } else if d == 7 {
        "7"
    } else if d == 8 {
        "8"
    } else {
        "9"
    };
    assert(s@ =~= seq![digit(d as nat)]);
    s
}

/// Appends `n` in decimal.
pub fn push_digits(out: &mut String, n: u128)
    ensures
        final(out)@ == old(out)@ + digits(n as nat),
    decreases n,
{
    if n >= 10 {
        push_digits(out, n / 10);
    }
    out.append(digit_str(n % 10));
    assert(final(out)@ =~= old(out)@ + digits(n as nat));
}

/// Appends a count of ten-thousandths with four fractional digits.
pub fn push_fixed4(out: &mut String, v: i128)
    ensures
        final(out)@ == old(out)@ + fixed4(v as int),
{
    let m: u128 = if v < 0 {
        out.append("-");
        ((-(v + 1)) as u128) + 1
    } else {
        v as u128
    };
    assert(m == magnitude(v as int));
    let f: u128 = m % 10000;
    push_digits(out, m / 10000);
    out.append(".");
    out.append(digit_str(f / 1000 % 10));
    out.append(digit_str(f / 100 % 10));
    out.append(digit_str(f / 10 % 10));
    out.append(digit_str(f % 10));
    proof {
        reveal_strlit("-");
        reveal_strlit(".");
        assert(final(out)@ =~= old(out)@ + fixed4(v as int));
    }
}

} // verus!
