use stock_tracker::fetch::{classify, parse_status, FetchSpec, Fetcher, SourceFailure};
use stock_tracker::model::{FetchErrorKind, Quote, Timestamp};
use stock_tracker::transform::transform;

fn task(symbol: &str) -> FetchSpec {
    FetchSpec {
        symbol: symbol.to_string(),
        from: Timestamp::new(1_609_459_200, 0).unwrap(),
        to: Timestamp::new(1_612_137_600, 0).unwrap(),
        delay_ms: 0,
    }
}

fn quote(t: i64, price: i64) -> Quote {
    Quote { timestamp: t, open: price, high: price, low: price, close: price, adjclose: price, volume: 1 }
}

#[test]
fn cycle_is_staggered_by_position() {
    let from = Timestamp::new(100, 0).unwrap();
    let now = Timestamp::new(200, 0).unwrap();
    let symbols = vec!["A".to_string(), "B".to_string(), "C".to_string()];
    let fetcher = Fetcher::new(symbols, from, 15);
    let tasks = fetcher.plan_cycle(now);
    assert_eq!(tasks.len(), 3);
    let delays: Vec<u64> = tasks.iter().map(|t| t.delay_ms).collect();
    assert_eq!(delays, vec![0, 15, 30]);
    assert_eq!(tasks[2].symbol, "C");
    assert_eq!(tasks[1].from, from);
    assert_eq!(tasks[1].to, now);
}

#[test]
fn status_codes_are_read() {
    assert_eq!(parse_status("404 Not Found"), Some(404));
    assert_eq!(parse_status("503"), Some(503));
    assert_eq!(parse_status("<unknown status code>"), None);
    assert_eq!(parse_status("4040"), None);
}

#[test]
fn failures_are_classified() {
    let kind = |f| classify("S".to_string(), f).kind;
    assert_eq!(kind(SourceFailure::Status("503 Service Unavailable".to_string())), FetchErrorKind::UpstreamStatus(503));
    assert_eq!(kind(SourceFailure::Status("odd".to_string())), FetchErrorKind::MalformedResponse);
    assert_eq!(kind(SourceFailure::Connection), FetchErrorKind::ConnectionFailed);
    assert_eq!(kind(SourceFailure::ClientSetup), FetchErrorKind::ConnectionFailed);
    assert_eq!(kind(SourceFailure::Decode), FetchErrorKind::MalformedResponse);
    assert_eq!(kind(SourceFailure::InvalidJson), FetchErrorKind::MalformedResponse);
    assert_eq!(kind(SourceFailure::EmptyDataSet), FetchErrorKind::EmptyDataSet);
    assert_eq!(kind(SourceFailure::DataInconsistency), FetchErrorKind::InconsistentData);
    assert_eq!(kind(SourceFailure::UnrepresentablePrice), FetchErrorKind::MalformedResponse);
}

#[test]
fn empty_answer_reports_empty_data_set() {
    let e = task("AAPL").settle(Ok(vec![])).unwrap_err();
    assert_eq!(e.kind, FetchErrorKind::EmptyDataSet);
    assert_eq!(e.symbol, "AAPL");
}

#[test]
fn large_price_series_becomes_history() {
    let h = task("KRW").settle(Ok(vec![quote(0, 2_000_000_000_000)])).unwrap();
    assert_eq!(h.quotes().len(), 1);
    assert_eq!(h.symbol(), "KRW");
}

#[test]
fn one_failure_does_not_block_another_success() {
    let failed = task("BAD").settle(Err(SourceFailure::Connection));
    let ok = task("GOOD").settle(Ok(vec![quote(0, 1_000_000), quote(1, 2_000_000)]));
    assert_eq!(failed.unwrap_err().kind, FetchErrorKind::ConnectionFailed);
    let line = transform(ok.unwrap()).fmt_csv();
    assert_eq!(line, "2021-01-01T00:00:00+00:00,GOOD,1.00,100.00,1.00,2.00,");
}
