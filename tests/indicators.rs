use stock_tracker::indicators::{avg, diff, max, min, percent_change_of, sma, Quotient};

fn p(x: f64) -> i64 {
    (x * 1_000_000.0).round() as i64
}

fn ps(xs: &[f64]) -> Vec<i64> {
    xs.iter().map(|&x| p(x)).collect()
}

#[test]
fn test_min() {
    assert_eq!(min(&ps(&[])), None);
    assert_eq!(min(&ps(&[0.0])), Some(p(0.0)));
    assert_eq!(min(&ps(&[3.0, 1.0, 2.0])), Some(p(1.0)));
}

#[test]
fn test_max() {
    assert_eq!(max(&ps(&[])), None);
    assert_eq!(max(&ps(&[0.0])), Some(p(0.0)));
    assert_eq!(max(&ps(&[1.0, 3.0, 2.0])), Some(p(3.0)));
}

#[test]
fn test_diff() {
    assert_eq!(diff(&ps(&[0.0])), None);
    assert_eq!(diff(&ps(&[])), None);
    assert_eq!(
        diff(&ps(&[1.0, 3.0, 2.0])),
        Some((Quotient::Finite(p(2.0) as i128), p(1.0) as i128))
    );
    assert_eq!(
        diff(&ps(&[1.0, 3.0, 4.0, 2.0])),
        Some((Quotient::Finite(p(2.0) as i128), p(1.0) as i128))
    );
}

#[test]
fn test_sma() {
    assert_eq!(sma(&ps(&[1.0]), 1), Some(ps(&[1.0])));
    assert_eq!(sma(&ps(&[1.0, 2.0]), 1), Some(ps(&[1.0, 2.0])));
    assert_eq!(sma(&ps(&[1.0, 2.0]), 2), Some(ps(&[1.5])));
    assert_eq!(sma(&ps(&[1.0, 2.0, 3.0]), 2), Some(ps(&[1.5, 2.5])));
    assert_eq!(sma(&ps(&[1.0]), 2), None);
    assert_eq!(sma(&ps(&[]), 1), None);
    assert_eq!(sma(&ps(&[1.0, 2.0]), 0), None);
    assert_eq!(sma(&ps(&[1.0, 2.0]), 3), None);
}

#[test]
fn sma_rounds_down() {
    // (1 + 1 + 2) millionths over three values
    assert_eq!(sma(&[1, 1, 2], 3), Some(vec![1]));
}

#[test]
fn diff_with_zero_first_value() {
    assert_eq!(diff(&[0, 5]), Some((Quotient::Infinite, 5)));
    assert_eq!(diff(&[0, 0]), Some((Quotient::Undefined, 0)));
    assert_eq!(diff(&[0, -5]), Some((Quotient::NegInfinite, -5)));
}

#[test]
fn diff_with_negative_and_extreme_values() {
    assert_eq!(diff(&[p(-2.0), p(1.0)]), Some((Quotient::Finite(-500_000), p(3.0) as i128)));
    assert_eq!(
        diff(&[i64::MIN, i64::MAX]),
        Some((Quotient::Finite(-999_999), i64::MAX as i128 - i64::MIN as i128))
    );
}

#[test]
fn means_of_negative_and_extreme_values() {
    // -7 / 2 rounds toward zero
    assert_eq!(avg(&[-3, -4]), Some(-3));
    assert_eq!(sma(&[-1, -2, 4], 2), Some(vec![-1, 1]));
    assert_eq!(avg(&[i64::MAX, i64::MAX, i64::MAX]), Some(i64::MAX));
    assert_eq!(avg(&[i64::MIN, i64::MIN]), Some(i64::MIN));
    assert_eq!(avg(&[]), None);
}

#[test]
fn percent_change_values() {
    assert_eq!(percent_change_of(p(1.0), p(3.1)), Quotient::Finite(210_000_000));
    assert_eq!(percent_change_of(p(2.0), p(1.0)), Quotient::Finite(-50_000_000));
    assert_eq!(percent_change_of(p(4.0), p(4.0)), Quotient::Finite(0));
    assert_eq!(percent_change_of(0, p(1.0)), Quotient::Infinite);
    assert_eq!(percent_change_of(0, 0), Quotient::Undefined);
    assert_eq!(percent_change_of(0, p(-1.0)), Quotient::NegInfinite);
    // (-3 / -2 - 1) * 100 = 50
    assert_eq!(percent_change_of(p(-2.0), p(-3.0)), Quotient::Finite(50_000_000));
    // (1 / -2 - 1) * 100 = -150
    assert_eq!(percent_change_of(p(-2.0), p(1.0)), Quotient::Finite(-150_000_000));
    assert_eq!(
        percent_change_of(1, i64::MAX),
        Quotient::Finite((i64::MAX as i128 - 1) * 100_000_000)
    );
}
