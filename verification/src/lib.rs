//! A trading-strategy backtesting engine over fixed-point prices.
//!
//! The engine computes technical indicators (simple moving average and
//! Wilder-smoothed relative-strength index) over a price series, detects
//! crossover signals, runs a single-position trade state machine with
//! commission and slippage costs, and reports aggregate statistics:
//! profit factor, trade count, gross profit and loss, and maximum drawdown.
//!
//! All arithmetic is exact integer arithmetic over fixed-point values, so
//! every computation is fully specified and verified:
//! - prices and slippage are fixed-point integers (`i64`),
//! - a moving average is carried as its window sum, an exact fraction with
//!   denominator `period`,
//! - the commission rate is given in parts per million and equity is tracked
//!   in millionths of a price unit, so charging commission needs no rounding,
//! - drawdown is measured in basis points, rounded down and capped at 100%.

pub mod engine;
pub mod indicators;
pub mod laws;
pub mod limits;

use vstd::prelude::*;

verus! {

/// Sum of two words, a small self-test entry point.
pub fn add(left: u64, right: u64) -> (r: u64)
    requires
        left + right <= u64::MAX,
    ensures
        r == left + right,
{
    left + right
}

} // verus!
