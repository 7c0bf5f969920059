//! Decimal text for integers and for fixed-point values at two places.
use vstd::prelude::*;

verus! {

/// Number of fixed-point units in one whole unit (micro-units).
pub const SCALE: u64 = 1_000_000;

/// Number of fixed-point units in one hundredth.
pub const CENT: u64 = 10_000;

pub open spec fn digit_char(d: nat) -> char {
    if d == 0 { '0' }
    else if d == 1 { '1' }
    else if d == 2 { '2' }
    else if d == 3 { '3' }
    else if d == 4 { '4' }
    else if d == 5 { '5' }
    else if d == 6 { '6' }
    else if d == 7 { '7' }
    else if d == 8 { '8' }
    else { '9' }
}

/// The decimal digits of `n`, most significant first, without leading zeros.
pub open spec fn dec_text(n: nat) -> Seq<char>
    decreases n,
{
    if n < 10 {
        seq![digit_char(n)]
    } else {
        dec_text(n / 10).push(digit_char(n % 10))
    }
}

/// The hundredths of a non-negative fixed-point magnitude, rounded half up.
pub open spec fn cents_of(m: nat) -> nat {
    (m + CENT as nat / 2) / CENT as nat
}

/// `v` (in fixed-point units) written with exactly two decimal places:
/// a minus sign for negative values, the whole part, a point and two digits.
pub open spec fn fixed2_text(v: int) -> Seq<char> {
    let m: nat = if v < 0 { (-v) as nat } else { v as nat };
    let c = cents_of(m);
    let sign: Seq<char> = if v < 0 { seq!['-'] } else { Seq::empty() };
    sign + dec_text(c / 100) + seq!['.', digit_char((c % 100) / 10), digit_char(c % 10)]
}

fn digit_str(d: u128) -> (r: &'static str)
    requires
        d < 10,
    ensures
        r@ == seq![digit_char(d as nat)],
{
    if d == 0 {
        proof { reveal_strlit("0"); }
        "0"
    } else if d == 1 {
        proof { reveal_strlit("1"); }
        "1"
    } else if d == 2 {
        proof { reveal_strlit("2"); }
        "2"
    } else if d == 3 {
        proof { reveal_strlit("3"); }
        "3"
    } else if d == 4 {
        proof { reveal_strlit("4"); }
        "4"
    } else if d == 5 {
        proof { reveal_strlit("5"); }
        "5"
    } else if d == 6 {
        proof { reveal_strlit("6"); }
        "6"
    } else if d == 7 {
        proof { reveal_strlit("7"); }
        "7"
    } else if d == 8 {
        proof { reveal_strlit("8"); }
        "8"
    } else {
        proof { reveal_strlit("9"); }
        "9"
    }
}

/// Appends the decimal digits of `n` to `s`.
pub fn push_decimal(s: &mut String, n: u128)
    ensures
        final(s)@ == old(s)@ + dec_text(n as nat),
    decreases n,
{
    if n < 10 {
        s.append(digit_str(n));
    } else {
        push_decimal(s, n / 10);
        s.append(digit_str(n % 10));
        assert(dec_text(n as nat) == dec_text((n / 10) as nat).push(digit_char((n % 10) as nat)));
        assert(final(s)@ =~= old(s)@ + dec_text(n as nat));
    }
}

/// Appends `v` (in fixed-point units) with two decimal places to `s`.
pub fn push_fixed2(s: &mut String, v: i128)
    requires
        v > i128::MIN,
    ensures
        final(s)@ == old(s)@ + fixed2_text(v as int),
{
    let m: u128 = if v < 0 { (-v) as u128 } else { v as u128 };
    let c: u128 = (m + (CENT / 2) as u128) / CENT as u128;
    let ghost start = s@;
    if v < 0 {
        proof { reveal_strlit("-"); }
        s.append("-");
    }
    push_decimal(s, c / 100);
    proof { reveal_strlit("."); }
    s.append(".");
    s.append(digit_str((c % 100) / 10));
    s.append(digit_str(c % 10));
    proof {
        let sign: Seq<char> = if v < 0 { seq!['-'] } else { Seq::empty() };
        assert(m as nat == (if v < 0 { (-v) as nat } else { v as nat }));
        assert(c as nat == cents_of(m as nat));
        assert(s@ =~= start + fixed2_text(v as int));
    }
}

} // verus!
