//! Quotes, validated price histories and fetch errors.
use vstd::prelude::*;

verus! {

/// Largest accepted distance from the Unix epoch, in seconds
/// (about 253,000 years either way).
pub const MAX_EPOCH_SECS: i64 = 8_000_000_000_000;

/// Nanoseconds in one second.
pub const NANOS_PER_SEC: u32 = 1_000_000_000;

/// A UTC instant: whole seconds since the Unix epoch and a nanosecond part.
#[derive(Clone, Copy, Debug, PartialEq, Eq, Structural)]
pub struct Timestamp {
    pub secs: i64,
    pub nanos: u32,
}

impl Timestamp {
    pub open spec fn wf(self) -> bool {
        -MAX_EPOCH_SECS <= self.secs <= MAX_EPOCH_SECS && self.nanos < NANOS_PER_SEC
    }

    /// The instant `secs` seconds and `nanos` nanoseconds after the epoch,
    /// or `None` when it lies outside the supported range.
    pub fn new(secs: i64, nanos: u32) -> (r: Option<Timestamp>)
        ensures
            r is Some <==> (-MAX_EPOCH_SECS <= secs <= MAX_EPOCH_SECS && nanos < NANOS_PER_SEC),
            r matches Some(t) ==> t.secs == secs && t.nanos == nanos && t.wf(),
    {
        if -MAX_EPOCH_SECS <= secs && secs <= MAX_EPOCH_SECS && nanos < NANOS_PER_SEC {
            Some(Timestamp { secs, nanos })
        } else {
            None
        }
    }
}

/// One time-stamped sample as delivered by the market-data source.
/// Prices are fixed-point values in millionths of a unit.
#[derive(Clone, Copy, Debug, PartialEq, Eq, Structural)]
pub struct Quote {
    pub timestamp: i64,
    pub open: i64,
    pub high: i64,
    pub low: i64,
    pub close: i64,
    pub adjclose: i64,
    pub volume: u64,
}

/// Timestamps strictly ascend.
pub open spec fn ascending(qs: Seq<Quote>) -> bool {
    forall|i: int| 0 < i < qs.len() ==> qs[i - 1].timestamp < #[trigger] qs[i].timestamp
}

/// Why one symbol's fetch produced no history.
#[derive(Clone, Copy, Debug, PartialEq, Eq, Structural)]
pub enum FetchErrorKind {
    ConnectionFailed,
    UpstreamStatus(u16),
    MalformedResponse,
    EmptyDataSet,
    InconsistentData,
}

/// A failed fetch, with the symbol it was for.
#[derive(Clone, Debug)]
pub struct FetchError {
    pub symbol: String,
    pub kind: FetchErrorKind,
}

/// The error kind that validation reports for a series, if any:
/// an empty series first, then misordered timestamps.
pub open spec fn series_error(qs: Seq<Quote>) -> Option<FetchErrorKind> {
    if qs.len() == 0 {
        Some(FetchErrorKind::EmptyDataSet)
    } else if !ascending(qs) {
        Some(FetchErrorKind::InconsistentData)
    } else {
        None
    }
}

/// A validated, non-empty price series for one symbol.
#[derive(Clone, Debug)]
pub struct StockHistory {
    symbol: String,
    from: Timestamp,
    quotes: Vec<Quote>,
}

impl StockHistory {
    pub open spec fn wf(&self) -> bool {
        &&& self.spec_quotes().len() > 0
        &&& ascending(self.spec_quotes())
        &&& self.spec_from().wf()
    }

    pub closed spec fn spec_symbol(&self) -> Seq<char> {
        self.symbol@
    }

    pub closed spec fn spec_from(&self) -> Timestamp {
        self.from
    }

    pub closed spec fn spec_quotes(&self) -> Seq<Quote> {
        self.quotes@
    }

    /// Validates a fetched series: it must be non-empty and its timestamps
    /// must strictly ascend.
    pub fn new(symbol: String, from: Timestamp, quotes: Vec<Quote>) -> (r: Result<StockHistory, FetchError>)
        requires
            from.wf(),
        ensures
            r is Ok <==> series_error(quotes@) is None,
            r matches Ok(h) ==> h.wf() && h.spec_symbol() == symbol@ && h.spec_from() == from
                && h.spec_quotes() == quotes@,
            r matches Err(e) ==> e.symbol@ == symbol@ && Some(e.kind) == series_error(quotes@),
    {
        if quotes.len() == 0 {
            return Err(FetchError { symbol, kind: FetchErrorKind::EmptyDataSet });
        }
        let mut k: usize = 1;
        while k < quotes.len()
            invariant
                1 <= k <= quotes@.len(),
                forall|j: int| 0 < j < k ==> quotes@[j - 1].timestamp < #[trigger] quotes@[j].timestamp,
            decreases quotes@.len() - k,
        {
            if quotes[k - 1].timestamp >= quotes[k].timestamp {
                assert(quotes@[k - 1].timestamp >= quotes@[k as int].timestamp);
                assert(!ascending(quotes@));
                return Err(FetchError { symbol, kind: FetchErrorKind::InconsistentData });
            }
            k = k + 1;
        }
        Ok(StockHistory { symbol, from, quotes })
    }

    pub fn symbol(&self) -> (r: &String)
        ensures
            r@ == self.spec_symbol(),
    {
        &self.symbol
    }

    pub fn from(&self) -> (r: Timestamp)
        ensures
            r == self.spec_from(),
    {
        self.from
    }

    pub fn quotes(&self) -> (r: &Vec<Quote>)
        ensures
            r@ == self.spec_quotes(),
    {
        &self.quotes
    }
}

} // verus!
