use backtest_engine::indicators::{calculate_rsi, calculate_sma};

#[test]
fn sma_empty_series_yields_empty() {
    let prices: Vec<i64> = vec![];
    assert_eq!(calculate_sma(&prices, 2).len(), 0);
}

#[test]
fn sma_zero_period_yields_empty() {
    let prices: Vec<i64> = vec![1, 2, 3];
    assert_eq!(calculate_sma(&prices, 0).len(), 0);
}

#[test]
fn sma_period_longer_than_series_yields_empty() {
    let prices: Vec<i64> = vec![1, 2, 3];
    assert_eq!(calculate_sma(&prices, 4).len(), 0);
}

#[test]
fn sma_window_sums_are_exact() {
    let prices: Vec<i64> = vec![1, 2, 3, 4, 5];
    let sums = calculate_sma(&prices, 2);
    // Length is len - period + 1; each value is the window sum, so the
    // average is the value divided by the period.
    assert_eq!(sums, vec![3, 5, 7, 9]);
}

#[test]
fn sma_of_constant_series_is_that_constant() {
    let prices: Vec<i64> = vec![5, 5, 5, 5, 5, 5];
    let sums = calculate_sma(&prices, 3);
    assert_eq!(sums.len(), 4);
    for s in sums {
        // sum == period * constant, so the average is exactly the constant
        assert_eq!(s, 3 * 5);
    }
}

#[test]
fn rsi_short_series_has_no_values() {
    let prices: Vec<i64> = vec![1, 2];
    let rsi = calculate_rsi(&prices, 2);
    assert_eq!(rsi.len(), 2);
    assert!(rsi.iter().all(|v| v.is_none()));
}

#[test]
fn rsi_zero_period_has_no_values() {
    let prices: Vec<i64> = vec![1, 2, 3];
    let rsi = calculate_rsi(&prices, 0);
    assert_eq!(rsi.len(), 3);
    assert!(rsi.iter().all(|v| v.is_none()));
}

#[test]
fn rsi_of_constant_series_is_100_after_warmup() {
    let prices: Vec<i64> = vec![7, 7, 7, 7, 7];
    let rsi = calculate_rsi(&prices, 2);
    assert_eq!(rsi.len(), 5);
    assert!(rsi[0].is_none());
    assert!(rsi[1].is_none());
    for j in 2..5 {
        let v = rsi[j].unwrap();
        assert_eq!(v.num, 100);
        assert_eq!(v.den, 1);
    }
}

#[test]
fn rsi_values_are_exact_fractions() {
    let prices: Vec<i64> = vec![10_000, 12_000, 11_000, 13_000, 12_000];
    let rsi = calculate_rsi(&prices, 2);
    assert_eq!(rsi.len(), 5);
    assert!(rsi[0].is_none());
    assert!(rsi[1].is_none());
    // gains [2000, 0, 2000, 0], losses [0, 1000, 0, 1000]
    // j=2: avg_gain 1000, avg_loss 500 -> 100*1000 / 1500
    let v2 = rsi[2].unwrap();
    assert_eq!((v2.num, v2.den), (100_000, 1_500));
    // j=3: avg_gain (1000*1+2000)/2 = 1500, avg_loss (500*1+0)/2 = 250
    let v3 = rsi[3].unwrap();
    assert_eq!((v3.num, v3.den), (150_000, 1_750));
    // j=4: avg_gain (1500+0)/2 = 750, avg_loss (250+1000)/2 = 625
    let v4 = rsi[4].unwrap();
    assert_eq!((v4.num, v4.den), (75_000, 1_375));
}
