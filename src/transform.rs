//! Derivation of summary indicators from a validated price history.
use vstd::prelude::*;
use crate::indicators::{avg, mean, percent_change, percent_change_of, Quotient, MAX_QUOTIENT};
use crate::model::{Quote, StockHistory, Timestamp};

verus! {

/// Number of trailing adjusted closes that the moving average covers.
pub const SMA_WINDOW: usize = 30;

/// Summary indicators of one symbol's history.
/// Prices are fixed-point values in millionths of a unit.
#[derive(Clone, Debug)]
pub struct StockInfo {
    pub symbol: String,
    pub from: Timestamp,
    /// Open of the first quote.
    pub open: i64,
    /// Largest high of the series.
    pub high: i64,
    /// Smallest low of the series.
    pub low: i64,
    /// Percent change from `open` to the last adjusted close.
    pub change: Quotient,
    /// Mean of the last thirty adjusted closes, when there are that many.
    pub sma_30: Option<i64>,
}

impl StockInfo {
    /// The start instant is valid and a finite change lies in the range
    /// that quotients of two prices reach.
    pub open spec fn wf(&self) -> bool {
        &&& self.from.wf()
        &&& (self.change matches Quotient::Finite(v) ==> -MAX_QUOTIENT <= v <= MAX_QUOTIENT)
    }
}

/// The adjusted closes of a series.
pub open spec fn adjcloses(qs: Seq<Quote>) -> Seq<i64> {
    qs.map_values(|q: Quote| q.adjclose)
}

/// The last `SMA_WINDOW` adjusted closes of a series of at least that length.
pub open spec fn trailing_adjcloses(qs: Seq<Quote>) -> Seq<i64> {
    adjcloses(qs).subrange(qs.len() - SMA_WINDOW as int, qs.len() as int)
}

/// Derives the summary record of a validated history: the first open, the
/// extreme high and low, the percent change from the first open to the last
/// adjusted close, and the 30-quote moving average when the series is long enough.
pub fn transform(history: StockHistory) -> (r: StockInfo)
    requires
        history.wf(),
    ensures
        ({
            let qs = history.spec_quotes();
            &&& r.wf()
            &&& r.symbol@ == history.spec_symbol()
            &&& r.from == history.spec_from()
            &&& r.open == qs[0].open
            &&& (exists|i: int| 0 <= i < qs.len() && r.high == qs[i].high)
            &&& (forall|i: int| 0 <= i < qs.len() ==> r.high >= #[trigger] qs[i].high)
            &&& (exists|i: int| 0 <= i < qs.len() && r.low == qs[i].low)
            &&& (forall|i: int| 0 <= i < qs.len() ==> r.low <= #[trigger] qs[i].low)
            &&& r.change == percent_change(qs[0].open as int, qs.last().adjclose as int)
            &&& (qs.len() < SMA_WINDOW ==> r.sma_30 is None)
            &&& (qs.len() >= SMA_WINDOW ==> r.sma_30 == Some(mean(trailing_adjcloses(qs)) as i64))
        }),
{
    let ghost qs = history.spec_quotes();
    let quotes = history.quotes();
    let l = quotes.len();
    let open = quotes[0].open;
    let mut high = quotes[0].high;
    let mut low = quotes[0].low;
    let ghost mut hi_at: int = 0;
    let ghost mut lo_at: int = 0;
    let mut i: usize = 1;
    while i < l
        invariant
            l == qs.len(),
            quotes@ == qs,
            1 <= i <= l,
            0 <= hi_at < i && high == qs[hi_at].high,
            0 <= lo_at < i && low == qs[lo_at].low,
            forall|j: int| 0 <= j < i ==> high >= #[trigger] qs[j].high,
            forall|j: int| 0 <= j < i ==> low <= #[trigger] qs[j].low,
        decreases l - i,
    {
        if quotes[i].high > high {
            high = quotes[i].high;
            proof { hi_at = i as int; }
        }
        if quotes[i].low < low {
            low = quotes[i].low;
            proof { lo_at = i as int; }
        }
        i = i + 1;
    }
    let change = percent_change_of(open, quotes[l - 1].adjclose);
    let sma_30 = if l < SMA_WINDOW {
        None
    } else {
        let mut window: Vec<i64> = Vec::new();
        let mut k: usize = l - SMA_WINDOW;
        while k < l
            invariant
                l == qs.len(),
                quotes@ == qs,
                l >= SMA_WINDOW,
                l - SMA_WINDOW <= k <= l,
                window@ == adjcloses(qs).subrange(l - SMA_WINDOW, k as int),
            decreases l - k,
        {
            window.push(quotes[k].adjclose);
            assert(window@ =~= adjcloses(qs).subrange(l - SMA_WINDOW, k + 1));
            k = k + 1;
        }
        assert(window@ == trailing_adjcloses(qs));
        avg(window.as_slice())
    };
    StockInfo { symbol: history.symbol().clone(), from: history.from(), open, high, low, change, sma_30 }
}

} // verus!
