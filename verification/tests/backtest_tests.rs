use backtest_engine::engine::{run_backtest_rsi, run_backtest_sma_cross, BacktestResult};

fn assert_sentinel(r: &BacktestResult) {
    assert_eq!(r.profit_factor_num, -1);
    assert_eq!(r.profit_factor_den, 1);
    assert_eq!(r.trades, 0);
    assert_eq!(r.total_profit, 0);
    assert_eq!(r.total_loss, 0);
    assert_eq!(r.max_drawdown_bp, 10_000);
}

#[test]
fn crossover_fast_period_not_below_slow_is_sentinel() {
    let prices: Vec<i64> = vec![1, 2, 3, 4, 5, 6, 7, 8];
    assert_sentinel(&run_backtest_sma_cross(&prices, 3, 2, 0, 0));
    assert_sentinel(&run_backtest_sma_cross(&prices, 3, 3, 0, 0));
}

#[test]
fn crossover_zero_period_is_sentinel() {
    let prices: Vec<i64> = vec![1, 2, 3, 4, 5];
    assert_sentinel(&run_backtest_sma_cross(&prices, 0, 3, 0, 0));
}

#[test]
fn crossover_short_series_is_sentinel() {
    let prices: Vec<i64> = vec![1, 2, 3];
    assert_sentinel(&run_backtest_sma_cross(&prices, 2, 3, 0, 0));
}

#[test]
fn negative_commission_is_sentinel() {
    let prices: Vec<i64> = vec![1, 2, 3, 4, 5, 4, 3, 2, 1];
    assert_sentinel(&run_backtest_sma_cross(&prices, 2, 3, -1, 0));
    assert_sentinel(&run_backtest_rsi(&prices, 2, 30, 70, -1, 0));
}

#[test]
fn negative_slippage_is_sentinel() {
    let prices: Vec<i64> = vec![1, 2, 3, 4, 5, 4, 3, 2, 1];
    assert_sentinel(&run_backtest_sma_cross(&prices, 2, 3, 0, -1));
    assert_sentinel(&run_backtest_rsi(&prices, 2, 30, 70, 0, -1));
}

#[test]
fn rsi_buy_level_not_below_sell_is_sentinel() {
    let prices: Vec<i64> = vec![1, 2, 3, 4, 5, 4, 3, 2, 1];
    assert_sentinel(&run_backtest_rsi(&prices, 2, 70, 30, 0, 0));
    assert_sentinel(&run_backtest_rsi(&prices, 2, 50, 50, 0, 0));
}

#[test]
fn rsi_short_series_is_sentinel() {
    let prices: Vec<i64> = vec![1, 2];
    assert_sentinel(&run_backtest_rsi(&prices, 2, 30, 70, 0, 0));
}

#[test]
fn crossover_zigzag_single_entry() {
    // Fast period 2, slow period 3. The only strict upward cross of the
    // fast average over the slow one happens at the bar reading price
    // index 10, so exactly one position is opened and never closed.
    let prices: Vec<i64> = vec![1, 2, 3, 4, 5, 4, 3, 2, 1, 2, 3, 4, 5];
    let r = run_backtest_sma_cross(&prices, 2, 3, 0, 0);
    assert_eq!(r.trades, 1);
    assert_eq!(r.total_profit, 0);
    assert_eq!(r.total_loss, 0);
    assert_eq!(r.profit_factor_num, 1);
    assert_eq!(r.profit_factor_den, 1);
    assert_eq!(r.max_drawdown_bp, 0);
}

#[test]
fn crossover_round_trip_with_loss() {
    // Enter at price 10 (price index 3), exit at price 1 (price index 5):
    // one closed trade with gross loss 9 and a 9-basis-point drawdown of
    // the 10_000-unit starting equity.
    let prices: Vec<i64> = vec![1, 1, 1, 10, 10, 1, 1, 1, 1];
    let r = run_backtest_sma_cross(&prices, 2, 3, 0, 0);
    assert_eq!(r.trades, 1);
    assert_eq!(r.total_profit, 0);
    assert_eq!(r.total_loss, 9);
    assert_eq!(r.profit_factor_num, 0);
    assert_eq!(r.profit_factor_den, 9);
    assert_eq!(r.max_drawdown_bp, 9);
}

#[test]
fn crossover_round_trip_with_profit() {
    // Enter at price 5 (price index 3) during the climb; the averages cross
    // back down at price 15 (price index 8) while the price is still above
    // the entry: one closed trade with gross profit 10 and no losses.
    let prices: Vec<i64> = vec![1, 1, 1, 5, 9, 13, 17, 16, 15, 14];
    let r = run_backtest_sma_cross(&prices, 2, 3, 0, 0);
    assert_eq!(r.trades, 1);
    assert_eq!(r.total_profit, 10);
    assert_eq!(r.total_loss, 0);
    assert_eq!(r.profit_factor_num, 9999);
    assert_eq!(r.profit_factor_den, 1);
    assert_eq!(r.max_drawdown_bp, 0);
}

#[test]
fn crossover_two_trades_mixed_outcome() {
    // First trade: enter at 5, exit at 15, gross profit 10. Second trade:
    // enter at 16, exit at 1, gross loss 15. Profit factor is the exact
    // fraction 10/15. The losing exit is measured against the raised peak
    // (10_010 price units of equity), a shortfall of 15 units: 14 basis
    // points after rounding down.
    let prices: Vec<i64> = vec![1, 1, 1, 5, 9, 13, 17, 16, 15, 14, 15, 16, 1, 1, 1];
    let r = run_backtest_sma_cross(&prices, 2, 3, 0, 0);
    assert_eq!(r.trades, 2);
    assert_eq!(r.total_profit, 10);
    assert_eq!(r.total_loss, 15);
    assert_eq!(r.profit_factor_num, 10);
    assert_eq!(r.profit_factor_den, 15);
    assert_eq!(r.max_drawdown_bp, 14);
}

#[test]
fn crossover_shift_leaves_result_unchanged() {
    let prices: Vec<i64> = vec![1, 1, 1, 10, 10, 1, 1, 1, 1];
    let shifted: Vec<i64> = prices.iter().map(|p| p + 100).collect();
    let a = run_backtest_sma_cross(&prices, 2, 3, 0, 0);
    let b = run_backtest_sma_cross(&shifted, 2, 3, 0, 0);
    assert_eq!(a, b);
}

#[test]
fn crossover_scaling_scales_totals_and_keeps_profit_factor() {
    let prices: Vec<i64> = vec![1, 1, 1, 10, 10, 1, 1, 1, 1];
    let scaled: Vec<i64> = prices.iter().map(|p| p * 3).collect();
    let a = run_backtest_sma_cross(&prices, 2, 3, 0, 0);
    let b = run_backtest_sma_cross(&scaled, 2, 3, 0, 0);
    assert_eq!(b.trades, a.trades);
    assert_eq!(b.total_profit, 3 * a.total_profit);
    assert_eq!(b.total_loss, 3 * a.total_loss);
    // equal as fractions
    assert_eq!(
        i128::from(b.profit_factor_num) * i128::from(a.profit_factor_den),
        i128::from(a.profit_factor_num) * i128::from(b.profit_factor_den)
    );
}

#[test]
fn crossover_rising_series_never_exits() {
    // Constant, then strictly rising: one upward cross, no downward cross.
    let prices: Vec<i64> = vec![5, 5, 5, 5, 6, 7, 8, 9, 10];
    let r = run_backtest_sma_cross(&prices, 2, 3, 0, 0);
    assert_eq!(r.trades, 1);
    assert_eq!(r.total_profit, 0);
    assert_eq!(r.total_loss, 0);
    assert_eq!(r.profit_factor_num, 1);
    assert_eq!(r.profit_factor_den, 1);
    assert_eq!(r.max_drawdown_bp, 0);
}

#[test]
fn crossover_drawdown_is_capped_at_100_percent() {
    // The open position loses a million price units against a starting
    // equity of ten thousand: raw drawdown far exceeds the peak, and the
    // reported figure stays capped at 10_000 basis points.
    let prices: Vec<i64> = vec![0, 0, 0, 1_000_000, 1_000_000, 0, 0, 0, 0];
    let r = run_backtest_sma_cross(&prices, 2, 3, 0, 0);
    assert_eq!(r.trades, 1);
    assert_eq!(r.total_profit, 0);
    assert_eq!(r.total_loss, 1_000_000);
    assert_eq!(r.profit_factor_num, 0);
    assert_eq!(r.profit_factor_den, 1_000_000);
    assert_eq!(r.max_drawdown_bp, 10_000);
}

#[test]
fn rsi_round_trip_with_profit() {
    // Index crosses above 40 at price index 3 (enter at 9_000) and back
    // below 60 at price index 5 (exit at 10_000): one closed trade with
    // gross profit 1_000 and no losses, so the profit factor is 9999/1.
    let prices: Vec<i64> = vec![10_000, 9_000, 8_000, 9_000, 11_000, 10_000, 8_000];
    let r = run_backtest_rsi(&prices, 2, 40, 60, 0, 0);
    assert_eq!(r.trades, 1);
    assert_eq!(r.total_profit, 1_000);
    assert_eq!(r.total_loss, 0);
    assert_eq!(r.profit_factor_num, 9999);
    assert_eq!(r.profit_factor_den, 1);
    assert_eq!(r.max_drawdown_bp, 0);
}

#[test]
fn rsi_costs_shrink_the_gross_profit() {
    // Same trade as above with 1% commission (10_000 parts per million)
    // and 100 units of slippage: entry 9_100, exit 9_900, gross 800.
    let prices: Vec<i64> = vec![10_000, 9_000, 8_000, 9_000, 11_000, 10_000, 8_000];
    let r = run_backtest_rsi(&prices, 2, 40, 60, 10_000, 100);
    assert_eq!(r.trades, 1);
    assert_eq!(r.total_profit, 800);
    assert_eq!(r.total_loss, 0);
    assert_eq!(r.profit_factor_num, 9999);
    assert_eq!(r.profit_factor_den, 1);
    assert_eq!(r.max_drawdown_bp, 0);
}
