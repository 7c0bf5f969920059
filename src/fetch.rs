//! Fetch-cycle decisions: which fetches a cycle starts and when, and how each
//! fetch's answer becomes a history or a classified error.
use vstd::prelude::*;
use vstd::utf8::encode_utf8;
use crate::model::{series_error, FetchError, FetchErrorKind, Quote, StockHistory, Timestamp};

verus! {

/// Default pause between the starts of two consecutive fetches, in milliseconds.
pub const DEFAULT_DEBOUNCE_MS: u64 = 15;

/// Default period between two cycles, in seconds.
pub const DEFAULT_INTERVAL_SECS: u64 = 30;

/// The tracked symbols, the start of the fetch window and the stagger delay.
pub struct Fetcher {
    symbols: Vec<String>,
    from: Timestamp,
    debounce_ms: u64,
}

/// One fetch to run: the symbol, its window, and how long to wait before it starts.
#[derive(Clone, Debug)]
pub struct FetchSpec {
    pub symbol: String,
    pub from: Timestamp,
    pub to: Timestamp,
    pub delay_ms: u64,
}

impl Fetcher {
    pub closed spec fn spec_symbols(&self) -> Seq<Seq<char>> {
        self.symbols@.map_values(|s: String| s@)
    }

    pub closed spec fn spec_from(&self) -> Timestamp {
        self.from
    }

    pub closed spec fn spec_debounce_ms(&self) -> u64 {
        self.debounce_ms
    }

    /// Every symbol's delay fits in a `u64`, and the window start is valid.
    pub open spec fn wf(&self) -> bool {
        &&& self.spec_debounce_ms() * self.spec_symbols().len() <= u64::MAX
        &&& self.spec_from().wf()
    }

    pub fn new(symbols: Vec<String>, from: Timestamp, debounce_ms: u64) -> (r: Fetcher)
        requires
            debounce_ms * symbols@.len() <= u64::MAX,
            from.wf(),
        ensures
            r.wf(),
            r.spec_symbols() == symbols@.map_values(|s: String| s@),
            r.spec_from() == from,
            r.spec_debounce_ms() == debounce_ms,
    {
        Fetcher { symbols, from, debounce_ms }
    }

    /// The fetches of one cycle that starts at `now`: one per tracked symbol, in
    /// order, each over the window from the start instant to `now`, the one at
    /// position `i` delayed by `i` times the debounce.
    pub fn plan_cycle(&self, now: Timestamp) -> (r: Vec<FetchSpec>)
        requires
            self.wf(),
        ensures
            r@.len() == self.spec_symbols().len(),
            forall|i: int| 0 <= i < r@.len() ==> {
                &&& (#[trigger] r@[i]).symbol@ == self.spec_symbols()[i]
                &&& r@[i].from == self.spec_from()
                &&& r@[i].to == now
                &&& r@[i].delay_ms == self.spec_debounce_ms() * i
            },
    {
        let mut tasks: Vec<FetchSpec> = Vec::new();
        let mut i: usize = 0;
        while i < self.symbols.len()
            invariant
                self.wf(),
                i <= self.symbols@.len(),
                tasks@.len() == i,
                forall|k: int| 0 <= k < i ==> {
                    &&& (#[trigger] tasks@[k]).symbol@ == self.spec_symbols()[k]
                    &&& tasks@[k].from == self.spec_from()
                    &&& tasks@[k].to == now
                    &&& tasks@[k].delay_ms == self.spec_debounce_ms() * k
                },
            decreases self.symbols@.len() - i,
        {
            proof {
                assert(self.debounce_ms * i <= self.debounce_ms * self.symbols@.len()) by (nonlinear_arith)
                    requires i <= self.symbols@.len();
            }
            let task = FetchSpec {
                symbol: self.symbols[i].clone(),
                from: self.from,
                to: now,
                delay_ms: self.debounce_ms * i as u64,
            };
            tasks.push(task);
            i = i + 1;
        }
        tasks
    }
}

/// How the market-data source failed to deliver a series.
#[derive(Clone, Debug)]
pub enum SourceFailure {
    /// The source answered with a non-success HTTP status; its text, such as `404 Not Found`.
    Status(String),
    /// The connection could not be made or broke off.
    Connection,
    /// The client for the source could not be set up.
    ClientSetup,
    /// The answer could not be decoded.
    Decode,
    /// The answer was not in the expected JSON shape.
    InvalidJson,
    /// The answer held no quotes.
    EmptyDataSet,
    /// The answer's series had different lengths.
    DataInconsistency,
    /// A price was not finite or lay beyond the fixed-point range.
    UnrepresentablePrice,
}

pub open spec fn is_digit(b: u8) -> bool {
    48 <= b <= 57
}

/// The status code at the start of a status text: three decimal digits,
/// then the end of the text or a space.
pub open spec fn status_code(b: Seq<u8>) -> Option<u16> {
    if b.len() >= 3 && is_digit(b[0]) && is_digit(b[1]) && is_digit(b[2])
        && (b.len() == 3 || b[3] == 32) {
        Some(((b[0] - 48) * 100 + (b[1] - 48) * 10 + (b[2] - 48)) as u16)
    } else {
        None
    }
}

/// Reads the status code from a status text such as `503 Service Unavailable`.
pub fn parse_status(text: &str) -> (r: Option<u16>)
    ensures
        r == status_code(encode_utf8(text@)),
{
    let b = text.as_bytes();
    if b.len() >= 3 && 48 <= b[0] && b[0] <= 57 && 48 <= b[1] && b[1] <= 57 && 48 <= b[2]
        && b[2] <= 57 && (b.len() == 3 || b[3] == 32) {
        Some(((b[0] - 48) as u16) * 100 + ((b[1] - 48) as u16) * 10 + (b[2] - 48) as u16)
    } else {
        None
    }
}

/// The error kind that a source failure is reported as.
pub open spec fn failure_kind(f: SourceFailure) -> FetchErrorKind {
    match f {
        SourceFailure::Status(t) => match status_code(encode_utf8(t@)) {
            Some(c) => FetchErrorKind::UpstreamStatus(c),
            None => FetchErrorKind::MalformedResponse,
        },
        SourceFailure::Connection => FetchErrorKind::ConnectionFailed,
        SourceFailure::ClientSetup => FetchErrorKind::ConnectionFailed,
        SourceFailure::Decode => FetchErrorKind::MalformedResponse,
        SourceFailure::InvalidJson => FetchErrorKind::MalformedResponse,
        SourceFailure::EmptyDataSet => FetchErrorKind::EmptyDataSet,
        SourceFailure::DataInconsistency => FetchErrorKind::InconsistentData,
        SourceFailure::UnrepresentablePrice => FetchErrorKind::MalformedResponse,
    }
}

/// Reports a source failure of the fetch for `symbol`.
pub fn classify(symbol: String, failure: SourceFailure) -> (r: FetchError)
    ensures
        r.symbol@ == symbol@,
        r.kind == failure_kind(failure),
{
    let kind = match failure {
        SourceFailure::Status(t) => match parse_status(t.as_str()) {
            Some(c) => FetchErrorKind::UpstreamStatus(c),
            None => FetchErrorKind::MalformedResponse,
        },
        SourceFailure::Connection => FetchErrorKind::ConnectionFailed,
        SourceFailure::ClientSetup => FetchErrorKind::ConnectionFailed,
        SourceFailure::Decode => FetchErrorKind::MalformedResponse,
        SourceFailure::InvalidJson => FetchErrorKind::MalformedResponse,
        SourceFailure::EmptyDataSet => FetchErrorKind::EmptyDataSet,
        SourceFailure::DataInconsistency => FetchErrorKind::InconsistentData,
        SourceFailure::UnrepresentablePrice => FetchErrorKind::MalformedResponse,
    };
    FetchError { symbol, kind }
}

/// What `settle` delivers for a fetch and the source's result: a history
/// exactly when the result is a valid series, carrying that series, and
/// otherwise one error for the fetch's symbol.
pub open spec fn settled(
    task: FetchSpec,
    answer: Result<Vec<Quote>, SourceFailure>,
    r: Result<StockHistory, FetchError>,
) -> bool {
    &&& (r is Ok <==> (answer matches Ok(qs) && series_error(qs@) is None))
    &&& (r matches Ok(h) ==> h.wf() && h.spec_symbol() == task.symbol@ && h.spec_from() == task.from
        && (answer matches Ok(qs) && h.spec_quotes() == qs@))
    &&& (r matches Err(e) ==> e.symbol@ == task.symbol@ && match answer {
        Ok(qs) => Some(e.kind) == series_error(qs@),
        Err(f) => e.kind == failure_kind(f),
    })
}

/// Within one cycle, every fetch whose source delivered a valid series yields
/// its history, whatever the other fetches of the cycle delivered: failures
/// elsewhere neither suppress nor replace it.
pub proof fn lemma_failures_isolated(
    tasks: Seq<FetchSpec>,
    answers: Seq<Result<Vec<Quote>, SourceFailure>>,
    outcomes: Seq<Result<StockHistory, FetchError>>,
    j: int,
)
    requires
        tasks.len() == answers.len() == outcomes.len(),
        forall|k: int| 0 <= k < tasks.len() ==> settled(tasks[k], answers[k], #[trigger] outcomes[k]),
        0 <= j < tasks.len(),
        answers[j] matches Ok(qs) && series_error(qs@) is None,
    ensures
        outcomes[j] matches Ok(h) && h.spec_symbol() == tasks[j].symbol@
            && (answers[j] matches Ok(qs) && h.spec_quotes() == qs@),
{
    assert(settled(tasks[j], answers[j], outcomes[j]));
}

impl FetchSpec {
    /// The terminal outcome of this fetch, given what the source delivered: a
    /// validated history for a valid series, and otherwise exactly one error for
    /// the symbol. Nothing but this fetch's own result enters the outcome, so a
    /// failure of any other fetch cannot keep it from being delivered.
    pub fn settle(&self, answer: Result<Vec<Quote>, SourceFailure>) -> (r: Result<StockHistory, FetchError>)
        requires
            self.from.wf(),
        ensures
            settled(*self, answer, r),
    {
        match answer {
            Ok(qs) => StockHistory::new(self.symbol.clone(), self.from, qs),
            Err(f) => Err(classify(self.symbol.clone(), f)),
        }
    }
}

} // verus!
