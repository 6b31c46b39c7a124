//! Lengths as decimal text: a count of thousandths, written in user units.

use vstd::prelude::*;
use vstd::string::StringExecFns;

verus! {

/// The character of a decimal digit.
pub open spec fn digit(d: int) -> char {
    if d == 0 {
        '0'
    } else if d == 1 {
        '1'
    } else if d == 2 {
        '2'
    } else if d == 3 {
        '3'
    } else if d == 4 {
        '4'
    } else if d == 5 {
        '5'
    } else if d == 6 {
        '6'
    } else if d == 7 {
        '7'
    } else if d == 8 {
        '8'
    } else {
        '9'
    }
}

/// The decimal digits of `n`, without leading zeros; `0` for zero.
pub open spec fn digits(n: nat) -> Seq<char>
    decreases n,
{
    if n < 10 {
        seq![digit(n as int)]
    } else {
        digits(n / 10).push(digit((n % 10) as int))
    }
}

/// The decimal point and the three digits of `m` thousandths, for `m` below 1000.
pub open spec fn thousandths(m: int) -> Seq<char> {
    seq!['.', digit(m / 100), digit(m / 10 % 10), digit(m % 10)]
}

/// `v` thousandths in decimal: a minus sign where `v` is negative, the whole units, and, unless
/// they are zero, a point and three digits of thousandths.
pub open spec fn decimal(v: int) -> Seq<char> {
    let size = if v < 0 {
        -v
    } else {
        v
    };
    let whole = digits((size / 1000) as nat);
    let unsigned = if size % 1000 == 0 {
        whole
    } else {
        whole + thousandths(size % 1000)
    };
    if v < 0 {
        seq!['-'] + unsigned
    } else {
        unsigned
    }
}

/// One decimal digit as text.
fn digit_str(d: u64) -> (s: &'static str)
    requires
        d < 10,
    ensures
        s@ == seq![digit(d as int)],
{
    proof {
        reveal_strlit("0");
        reveal_strlit("1");
        reveal_strlit("2");
        reveal_strlit("3");
        reveal_strlit("4");
        reveal_strlit("5");
        reveal_strlit("6");
        reveal_strlit("7");
        reveal_strlit("8");
        reveal_strlit("9");
    }
    let s = if d == 0 {
        "0"
    } else if d == 1 {
        "1"
    } else if d == 2 {
        "2"
    } else if d == 3 {
        "3"
    } else if d == 4 {
        "4"
    } else if d == 5 {
        "5"
    } else if d == 6 {
        "6"
    } else if d == 7 {
        "7"
    } else if d == 8 {
        "8"
    } else {
        "9"
    };
    assert(s@ =~= seq![digit(d as int)]);
    s
}

/// Appends the decimal digits of `n` to `out`.
fn push_digits(out: &mut String, n: u64)
    ensures
        final(out)@ == old(out)@ + digits(n as nat),
    decreases n,
{
    if n >= 10 {
        push_digits(out, n / 10);
    }
    out.append(digit_str(n % 10));
    assert(out@ =~= old(out)@ + digits(n as nat));
}

/// Writes `v` thousandths in decimal.
pub fn format_decimal(v: i64) -> (r: String)
    ensures
        r@ == decimal(v as int),
{
    let size: u64 = if v < 0 {
        (-(v as i128)) as u64
    } else {
        v as u64
    };
    let mut out = String::new();
    if v < 0 {
        proof {
            reveal_strlit("-");
        }
        out.append("-");
    }
    push_digits(&mut out, size / 1000);
    let rest: u64 = size % 1000;
    if rest != 0 {
        proof {
            reveal_strlit(".");
        }
        out.append(".");
        out.append(digit_str(rest / 100));
        out.append(digit_str(rest / 10 % 10));
        out.append(digit_str(rest % 10));
    }
    assert(out@ =~= decimal(v as int));
    out
}

} // verus!
