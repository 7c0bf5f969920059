//! Statistics over fixed-point price series.
use vstd::prelude::*;
use crate::decimal::SCALE;

verus! {

/// Sum of a series.
pub open spec fn sum(s: Seq<i64>) -> int
    decreases s.len(),
{
    if s.len() == 0 {
        0
    } else {
        sum(s.drop_last()) + s.last()
    }
}

pub open spec fn abs(x: int) -> int {
    if x < 0 { -x } else { x }
}

/// `x / d` rounded toward zero, for a positive `d`.
pub open spec fn div_trunc(x: int, d: int) -> int {
    if x < 0 { -((-x) / d) } else { x / d }
}

/// The mean of a non-empty series, rounded toward zero.
pub open spec fn mean(s: Seq<i64>) -> int {
    div_trunc(sum(s), s.len() as int)
}

/// A quotient whose divisor may be zero.
#[derive(Clone, Copy, Debug, PartialEq, Eq, Structural)]
pub enum Quotient {
    /// A finite value, in fixed-point units.
    Finite(i128),
    /// A positive amount divided by zero.
    Infinite,
    /// A negative amount divided by zero.
    NegInfinite,
    /// Zero divided by zero.
    Undefined,
}

/// Largest magnitude of an amount that `scaled_quotient_of` divides.
pub const MAX_AMOUNT: i128 = 36_893_488_147_419_103_232;

/// Largest magnitude of a finite quotient between two prices.
pub const MAX_QUOTIENT: i128 = 10_000_000_000_000_000_000_000_000_000;

/// `num * factor / den`, rounded toward zero; a zero divisor gives an
/// infinity of the amount's sign, or `Undefined` for a zero amount.
pub open spec fn scaled_quotient(num: int, den: int, factor: int) -> Quotient {
    if den == 0 {
        if num > 0 {
            Quotient::Infinite
        } else if num < 0 {
            Quotient::NegInfinite
        } else {
            Quotient::Undefined
        }
    } else {
        let m = abs(num) * factor / abs(den);
        Quotient::Finite((if (num < 0) != (den < 0) { -m } else { m }) as i128)
    }
}

/// `num / den` in fixed-point units.
pub open spec fn ratio(num: int, den: int) -> Quotient {
    scaled_quotient(num, den, SCALE as int)
}

/// `(last / open - 1) * 100` in fixed-point units, that is
/// `(last - open) * 100 / open`.
pub open spec fn percent_change(open: int, last: int) -> Quotient {
    scaled_quotient(last - open, open, 100 * SCALE as int)
}

pub proof fn lemma_sum_bounds(s: Seq<i64>)
    ensures
        s.len() * (i64::MIN as int) <= sum(s) <= s.len() * (i64::MAX as int),
    decreases s.len(),
{
    if s.len() > 0 {
        lemma_sum_bounds(s.drop_last());
    }
}

pub proof fn lemma_sum_step(s: Seq<i64>, a: int, i: int)
    requires
        0 <= a <= i < s.len(),
    ensures
        sum(s.subrange(a, i + 1)) == sum(s.subrange(a, i)) + s[i],
{
    assert(s.subrange(a, i + 1).drop_last() =~= s.subrange(a, i));
}

/// The mean of a non-empty series lies in the range of its element type.
pub proof fn lemma_mean_bounds(s: Seq<i64>)
    requires
        s.len() > 0,
    ensures
        i64::MIN <= mean(s) <= i64::MAX,
{
    lemma_sum_bounds(s);
    let t = sum(s);
    let n = s.len() as int;
    if t < 0 {
        assert((-t) / n <= 0x8000_0000_0000_0000) by (nonlinear_arith)
            requires 0 < -t <= n * 0x8000_0000_0000_0000, n > 0;
    } else {
        assert(t / n <= 0x7fff_ffff_ffff_ffff) by (nonlinear_arith)
            requires 0 <= t <= n * 0x7fff_ffff_ffff_ffff, n > 0;
    }
}

/// The smallest value of the series, `None` when it is empty.
pub fn min(series: &[i64]) -> (r: Option<i64>)
    ensures
        r is Some <==> series@.len() > 0,
        r matches Some(m) ==> series@.contains(m)
            && forall|i: int| 0 <= i < series@.len() ==> m <= #[trigger] series@[i],
{
    if series.len() == 0 {
        return None;
    }
    let mut m = series[0];
    let mut i: usize = 1;
    while i < series.len()
        invariant
            1 <= i <= series@.len(),
            series@.contains(m),
            forall|j: int| 0 <= j < i ==> m <= #[trigger] series@[j],
        decreases series@.len() - i,
    {
        if series[i] < m {
            m = series[i];
        }
        i = i + 1;
    }
    Some(m)
}

/// The largest value of the series, `None` when it is empty.
pub fn max(series: &[i64]) -> (r: Option<i64>)
    ensures
        r is Some <==> series@.len() > 0,
        r matches Some(m) ==> series@.contains(m)
            && forall|i: int| 0 <= i < series@.len() ==> m >= #[trigger] series@[i],
{
    if series.len() == 0 {
        return None;
    }
    let mut m = series[0];
    let mut i: usize = 1;
    while i < series.len()
        invariant
            1 <= i <= series@.len(),
            series@.contains(m),
            forall|j: int| 0 <= j < i ==> m >= #[trigger] series@[j],
        decreases series@.len() - i,
    {
        if series[i] > m {
            m = series[i];
        }
        i = i + 1;
    }
    Some(m)
}

/// Sum of `series[a..b]`.
fn sum_range(series: &[i64], a: usize, b: usize) -> (r: i128)
    requires
        a <= b <= series@.len(),
    ensures
        r == sum(series@.subrange(a as int, b as int)),
{
    let mut acc: i128 = 0;
    let mut i: usize = a;
    while i < b
        invariant
            a <= i <= b <= series@.len(),
            acc == sum(series@.subrange(a as int, i as int)),
        decreases b - i,
    {
        proof {
            lemma_sum_step(series@, a as int, i as int);
            let sub = series@.subrange(a as int, i as int + 1);
            lemma_sum_bounds(sub);
            assert(sub.len() <= usize::MAX);
        }
        acc = acc + series[i] as i128;
        i = i + 1;
    }
    acc
}

/// `total / n` rounded toward zero, where `total` is the sum of `s`.
fn mean_of_sum(total: i128, n: usize, Ghost(s): Ghost<Seq<i64>>) -> (r: i64)
    requires
        n > 0,
        s.len() == n,
        total == sum(s),
    ensures
        r == mean(s),
{
    proof {
        lemma_sum_bounds(s);
        lemma_mean_bounds(s);
        assert(n <= usize::MAX);
    }
    if total < 0 {
        let q = (-total) as u128 / n as u128;
        -(q as i128) as i64
    } else {
        (total as u128 / n as u128) as i64
    }
}

/// The mean of the series rounded toward zero, `None` when it is empty.
pub fn avg(series: &[i64]) -> (r: Option<i64>)
    ensures
        r is Some <==> series@.len() > 0,
        r matches Some(m) ==> m == mean(series@),
{
    if series.len() == 0 {
        return None;
    }
    let total = sum_range(series, 0, series.len());
    assert(series@.subrange(0, series@.len() as int) =~= series@);
    Some(mean_of_sum(total, series.len(), Ghost(series@)))
}

/// The simple moving averages over every window of `n` consecutive values,
/// each rounded toward zero; `None` when `n` is zero or the series is shorter than `n`.
pub fn sma(series: &[i64], n: usize) -> (r: Option<Vec<i64>>)
    ensures
        r is Some <==> (n > 0 && series@.len() >= n),
        r matches Some(v) ==> v@.len() == series@.len() - n + 1
            && forall|i: int| 0 <= i < v@.len()
                ==> #[trigger] v@[i] == mean(series@.subrange(i, i + n)),
{
    if n == 0 || series.len() < n {
        return None;
    }
    let mut out: Vec<i64> = Vec::new();
    let mut i: usize = 0;
    while i <= series.len() - n
        invariant
            n > 0,
            series@.len() >= n,
            i <= series@.len() - n + 1,
            out@.len() == i,
            forall|k: int| 0 <= k < i ==> #[trigger] out@[k] == mean(series@.subrange(k, k + n)),
        decreases series@.len() - i,
    {
        let total = sum_range(series, i, i + n);
        let m = mean_of_sum(total, n, Ghost(series@.subrange(i as int, i as int + n)));
        out.push(m);
        i = i + 1;
    }
    Some(out)
}

/// `scaled_quotient(num, den, factor)` for amounts of bounded size.
fn scaled_quotient_of(num: i128, den: i128, factor: u128) -> (r: Quotient)
    requires
        -MAX_AMOUNT <= num <= MAX_AMOUNT,
        -MAX_AMOUNT <= den <= MAX_AMOUNT,
        factor <= 100 * SCALE,
    ensures
        r == scaled_quotient(num as int, den as int, factor as int),
        r matches Quotient::Finite(v) ==> -MAX_QUOTIENT <= v <= MAX_QUOTIENT,
{
    if den == 0 {
        if num > 0 {
            Quotient::Infinite
        } else if num < 0 {
            Quotient::NegInfinite
        } else {
            Quotient::Undefined
        }
    } else {
        let mn: u128 = if num < 0 { (-num) as u128 } else { num as u128 };
        let md: u128 = if den < 0 { (-den) as u128 } else { den as u128 };
        proof {
            assert(mn * factor <= MAX_AMOUNT * 100_000_000) by (nonlinear_arith)
                requires mn <= MAX_AMOUNT, factor <= 100_000_000;
            assert(mn * factor / (md as int) <= mn * factor) by (nonlinear_arith)
                requires md > 0, mn * factor >= 0;
        }
        let m = (mn * factor) / md;
        if (num < 0) != (den < 0) {
            Quotient::Finite(-(m as i128))
        } else {
            Quotient::Finite(m as i128)
        }
    }
}

/// The ratio of the last value to the first, and their difference;
/// `None` when the series has fewer than two values.
pub fn diff(series: &[i64]) -> (r: Option<(Quotient, i128)>)
    ensures
        r is Some <==> series@.len() >= 2,
        r matches Some((rel, d)) ==> rel == ratio(series@.last() as int, series@[0] as int)
            && d == series@.last() - series@[0],
{
    let l = series.len();
    if l < 2 {
        return None;
    }
    let first = series[0];
    let last = series[l - 1];
    let rel = scaled_quotient_of(last as i128, first as i128, SCALE as u128);
    Some((rel, last as i128 - first as i128))
}

/// The percent change from `open` to `last`, see `percent_change`.
pub fn percent_change_of(open: i64, last: i64) -> (r: Quotient)
    ensures
        r == percent_change(open as int, last as int),
        r matches Quotient::Finite(v) ==> -MAX_QUOTIENT <= v <= MAX_QUOTIENT,
{
    scaled_quotient_of(last as i128 - open as i128, open as i128, 100 * SCALE as u128)
}

} // verus!
