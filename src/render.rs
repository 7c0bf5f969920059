//! The one-line text forms of derived records and fetch errors.
use vstd::prelude::*;
use crate::decimal::{dec_text, fixed2_text, push_decimal, push_fixed2};
use crate::indicators::{Quotient, MAX_QUOTIENT};
use crate::model::{FetchError, FetchErrorKind, MAX_EPOCH_SECS, NANOS_PER_SEC};
use crate::transform::StockInfo;

verus! {

/// The RFC 3339 text of the UTC instant `secs` seconds and `nanos`
/// nanoseconds after the Unix epoch, with a `+00:00` offset.
pub uninterp spec fn rfc3339_text(secs: i64, nanos: u32) -> Seq<char>;

/// Relies on chrono's `DateTime::<Utc>::from_timestamp`, which accepts every
/// instant whose day number fits its calendar (years up to about ±262,000) and a
/// nanosecond part under one second, and on `DateTime::to_rfc3339`, which writes it.
#[verifier::external_body]
fn rfc3339(secs: i64, nanos: u32) -> (r: Option<String>)
    ensures
        (-MAX_EPOCH_SECS <= secs <= MAX_EPOCH_SECS && nanos < NANOS_PER_SEC) ==> r is Some,
        r matches Some(t) ==> t@ == rfc3339_text(secs, nanos),
{
    chrono::DateTime::<chrono::Utc>::from_timestamp(secs, nanos).map(|d| d.to_rfc3339())
}

/// The text of a quotient: two decimal places when finite, `inf` or `-inf`
/// for a positive or negative amount over zero, and `NaN` for zero over zero.
pub open spec fn quotient_text(q: Quotient) -> Seq<char> {
    match q {
        Quotient::Finite(v) => fixed2_text(v as int),
        Quotient::Infinite => "inf"@,
        Quotient::NegInfinite => "-inf"@,
        Quotient::Undefined => "NaN"@,
    }
}

/// One record line: `time,symbol,open,pct_change,low,high,sma30_or_blank`,
/// every number with two decimal places and an empty last field without average.
pub open spec fn csv_line(r: StockInfo, time: Seq<char>) -> Seq<char> {
    time + ","@ + r.symbol@ + ","@ + fixed2_text(r.open as int) + ","@ + quotient_text(r.change)
        + ","@ + fixed2_text(r.low as int) + ","@ + fixed2_text(r.high as int) + ","@
        + match r.sma_30 {
            Some(v) => fixed2_text(v as int),
            None => Seq::empty(),
        }
}

/// The line of a record, its time written in RFC 3339.
pub open spec fn record_line(r: StockInfo) -> Seq<char> {
    csv_line(r, rfc3339_text(r.from.secs, r.from.nanos))
}

fn push_quotient(s: &mut String, q: Quotient)
    requires
        q matches Quotient::Finite(v) ==> -MAX_QUOTIENT <= v <= MAX_QUOTIENT,
    ensures
        final(s)@ == old(s)@ + quotient_text(q),
{
    match q {
        Quotient::Finite(v) => push_fixed2(s, v),
        Quotient::Infinite => s.append("inf"),
        Quotient::NegInfinite => s.append("-inf"),
        Quotient::Undefined => s.append("NaN"),
    }
}

/// Proves that a record's line depends on nothing but the record's fields.
/// Rendering the same record twice therefore yields identical text.
pub proof fn lemma_render_idempotent(a: StockInfo, b: StockInfo)
    requires
        a.symbol@ == b.symbol@,
        a.from == b.from,
        a.open == b.open,
        a.high == b.high,
        a.low == b.low,
        a.change == b.change,
        a.sma_30 == b.sma_30,
    ensures
        record_line(a) == record_line(b),
{
}

impl StockInfo {
    /// The record's line with `time` standing for its start instant.
    pub fn fmt_csv_at(&self, time: &str) -> (r: String)
        requires
            self.wf(),
        ensures
            r@ == csv_line(*self, time@),
    {
        let mut s = String::from_str(time);
        s.append(",");
        s.append(self.symbol.as_str());
        s.append(",");
        push_fixed2(&mut s, self.open as i128);
        s.append(",");
        push_quotient(&mut s, self.change);
        s.append(",");
        push_fixed2(&mut s, self.low as i128);
        s.append(",");
        push_fixed2(&mut s, self.high as i128);
        s.append(",");
        match self.sma_30 {
            Some(v) => push_fixed2(&mut s, v as i128),
            None => {},
        }
        assert(s@ =~= csv_line(*self, time@));
        s
    }

    /// The record's line, its start instant written in RFC 3339.
    pub fn fmt_csv(&self) -> (r: String)
        requires
            self.wf(),
        ensures
            r@ == record_line(*self),
    {
        let time = rfc3339(self.from.secs, self.from.nanos);
        match time {
            Some(t) => self.fmt_csv_at(t.as_str()),
            None => String::new(),
        }
    }
}

/// The description of an error kind.
pub open spec fn kind_text(k: FetchErrorKind) -> Seq<char> {
    match k {
        FetchErrorKind::ConnectionFailed => "connection to the market-data source failed"@,
        FetchErrorKind::UpstreamStatus(c) => "market-data source answered with status "@
            + dec_text(c as nat),
        FetchErrorKind::MalformedResponse => "market-data source sent a malformed response"@,
        FetchErrorKind::EmptyDataSet => "market-data source returned an empty data set"@,
        FetchErrorKind::InconsistentData => "market-data source returned inconsistent data"@,
    }
}

/// One error line: `fetch failed for SYMBOL: description`.
pub open spec fn error_line(e: FetchError) -> Seq<char> {
    "fetch failed for "@ + e.symbol@ + ": "@ + kind_text(e.kind)
}

impl FetchError {
    /// The error's line, which names its symbol.
    pub fn describe(&self) -> (r: String)
        ensures
            r@ == error_line(*self),
    {
        let mut s = String::from_str("fetch failed for ");
        s.append(self.symbol.as_str());
        s.append(": ");
        match self.kind {
            FetchErrorKind::ConnectionFailed => s.append("connection to the market-data source failed"),
            FetchErrorKind::UpstreamStatus(c) => {
                s.append("market-data source answered with status ");
                push_decimal(&mut s, c as u128);
            },
            FetchErrorKind::MalformedResponse => s.append("market-data source sent a malformed response"),
            FetchErrorKind::EmptyDataSet => s.append("market-data source returned an empty data set"),
            FetchErrorKind::InconsistentData => s.append("market-data source returned inconsistent data"),
        }
        assert(s@ =~= error_line(*self));
        s
    }
}

} // verus!
