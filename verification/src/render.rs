//! Decimal rendering for the exposition text.
//!
//! Counters render as plain decimals.  Seconds render from microsecond
//! values at six decimal places; percentages render from
//! hundredth-of-a-percent values at two places.

use vstd::prelude::*;
use vstd::string::StringExecFns;

verus! {

/// The decimal digit character of `d`, which must lie in 0..=9.
pub open spec fn spec_digit(d: int) -> char {
    if d == 0 {
        '0'
    } else if d == 1 {
        '1'
    } else if d == 2 {
        '2'
    } else if d == 3 {
        '3'
    } else if d == 4 {
        '4'
    } else if d == 5 {
        '5'
    } else if d == 6 {
        '6'
    } else if d == 7 {
        '7'
    } else if d == 8 {
        '8'
    } else {
        '9'
    }
}

/// The usual decimal numeral of `n`, without leading zeros.
pub open spec fn spec_dec(n: int) -> Seq<char>
    decreases n,
{
    if n < 10 {
        seq![spec_digit(n)]
    } else {
        spec_dec(n / 10).push(spec_digit(n % 10))
    }
}

/// The last `w` decimal digits of `n`, zero-padded to exactly `w` places.
pub open spec fn spec_dec_width(n: int, w: nat) -> Seq<char>
    decreases w,
{
    if w == 0 {
        Seq::empty()
    } else {
        spec_dec_width(n / 10, (w - 1) as nat).push(spec_digit(n % 10))
    }
}

/// A microsecond count rendered as seconds with six decimal places.
pub open spec fn spec_seconds6(micros: u64) -> Seq<char> {
    spec_dec(micros as int / 1000000) + seq!['.'] + spec_dec_width(micros as int % 1000000, 6)
}

/// A hundredth-of-a-percent count rendered as a percentage with two
/// decimal places.
pub open spec fn spec_percent2(centi: u64) -> Seq<char> {
    spec_dec(centi as int / 100) + seq!['.'] + spec_dec_width(centi as int % 100, 2)
}

fn digit_str(d: u64) -> (r: &'static str)
    requires
        d < 10,
    ensures
        r@ == seq![spec_digit(d as int)],
{
    proof {
        reveal_strlit("0");
        reveal_strlit("1");
        reveal_strlit("2");
        reveal_strlit("3");
        reveal_strlit("4");
        reveal_strlit("5");
        reveal_strlit("6");
        reveal_strlit("7");
        reveal_strlit("8");
        reveal_strlit("9");
    }
    if d == 0 {
        "0"
    } else if d == 1 {
        "1"
    } else if d == 2 {
        "2"
    } else if d == 3 {
        "3"
    } else if d == 4 {
        "4"
    } else if d == 5 {
        "5"
    } else if d == 6 {
        "6"
    } else if d == 7 {
        "7"
    } else if d == 8 {
        "8"
    } else {
        "9"
    }
}

/// Append the decimal numeral of `n`.
pub fn push_dec(out: &mut String, n: u64)
    ensures
        final(out)@ == old(out)@ + spec_dec(n as int),
    decreases n,
{
    if n < 10 {
        out.append(digit_str(n));
    } else {
        push_dec(out, n / 10);
        out.append(digit_str(n % 10));
        proof {
            assert(out@ =~= old(out)@ + spec_dec(n as int));
        }
    }
}

/// Append the last `w` decimal digits of `n`, zero-padded to `w` places.
pub fn push_dec_width(out: &mut String, n: u64, w: usize)
    ensures
        final(out)@ == old(out)@ + spec_dec_width(n as int, w as nat),
    decreases w,
{
    if w == 0 {
        proof {
            assert(old(out)@ + spec_dec_width(n as int, 0) =~= old(out)@);
        }
    } else {
        push_dec_width(out, n / 10, w - 1);
        out.append(digit_str(n % 10));
        proof {
            assert(out@ =~= old(out)@ + spec_dec_width(n as int, w as nat));
        }
    }
}

/// Append a microsecond count as seconds with six decimal places.
pub fn push_seconds6(out: &mut String, micros: u64)
    ensures
        final(out)@ == old(out)@ + spec_seconds6(micros),
{
    push_dec(out, micros / 1000000);
    out.append(".");
    push_dec_width(out, micros % 1000000, 6);
    proof {
        reveal_strlit(".");
        assert(out@ =~= old(out)@ + spec_seconds6(micros));
    }
}

/// Append a hundredth-of-a-percent count as a percentage with two decimal
/// places.
pub fn push_percent2(out: &mut String, centi: u64)
    ensures
        final(out)@ == old(out)@ + spec_percent2(centi),
{
    push_dec(out, centi / 100);
    out.append(".");
    push_dec_width(out, centi % 100, 2);
    proof {
        reveal_strlit(".");
        assert(out@ =~= old(out)@ + spec_percent2(centi));
    }
}

} // verus!
