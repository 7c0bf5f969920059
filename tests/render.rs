use stock_tracker::indicators::Quotient;
use stock_tracker::model::{FetchError, FetchErrorKind, Timestamp};
use stock_tracker::transform::StockInfo;

fn record(change: Quotient, sma_30: Option<i64>) -> StockInfo {
    StockInfo {
        symbol: "MSFT".to_string(),
        from: Timestamp::new(1_609_459_200, 0).unwrap(),
        open: 2_000_000,
        high: 2_345_000,
        low: 1_994_999,
        change,
        sma_30,
    }
}

#[test]
fn renders_fields_with_two_places() {
    let r = record(Quotient::Finite(-50_000_000), Some(12_345_678));
    assert_eq!(
        r.fmt_csv(),
        "2021-01-01T00:00:00+00:00,MSFT,2.00,-50.00,1.99,2.35,12.35"
    );
}

#[test]
fn rendering_twice_is_identical() {
    let r = record(Quotient::Finite(1), None);
    assert_eq!(r.fmt_csv(), r.fmt_csv());
    assert_eq!(r.clone().fmt_csv(), r.fmt_csv());
}

#[test]
fn renders_infinite_and_undefined_change() {
    assert_eq!(record(Quotient::Infinite, None).fmt_csv_at("t"), "t,MSFT,2.00,inf,1.99,2.35,");
    assert_eq!(record(Quotient::Undefined, None).fmt_csv_at("t"), "t,MSFT,2.00,NaN,1.99,2.35,");
    assert_eq!(record(Quotient::NegInfinite, None).fmt_csv_at("t"), "t,MSFT,2.00,-inf,1.99,2.35,");
}

#[test]
fn renders_small_negative_change_with_sign() {
    assert_eq!(
        record(Quotient::Finite(-1_000), None).fmt_csv_at("t"),
        "t,MSFT,2.00,-0.00,1.99,2.35,"
    );
}

#[test]
fn renders_subsecond_start() {
    let mut r = record(Quotient::Finite(0), None);
    r.from = Timestamp::new(0, 500_000_000).unwrap();
    assert_eq!(r.fmt_csv(), "1970-01-01T00:00:00.500+00:00,MSFT,2.00,0.00,1.99,2.35,");
}

#[test]
fn renders_extreme_values() {
    let mut r = record(Quotient::Finite(-10_000_000_000_000_000_000_000_000_000), Some(i64::MIN));
    r.open = i64::MAX;
    assert_eq!(
        r.fmt_csv_at("t"),
        "t,MSFT,9223372036854.78,-10000000000000000000000.00,1.99,2.35,-9223372036854.78"
    );
}

#[test]
fn error_line_names_symbol() {
    let e = FetchError { symbol: "IBM".to_string(), kind: FetchErrorKind::UpstreamStatus(404) };
    assert_eq!(e.describe(), "fetch failed for IBM: market-data source answered with status 404");
    let e = FetchError { symbol: "IBM".to_string(), kind: FetchErrorKind::EmptyDataSet };
    assert_eq!(e.describe(), "fetch failed for IBM: market-data source returned an empty data set");
}
