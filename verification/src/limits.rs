//! Fixed-point ranges the engine works in, and shared arithmetic lemmas.
//!
//! The engine's arithmetic is exact, so every intermediate value must be
//! shown to fit its machine type. The bounds below are generous for the
//! intended use (a price series of at most 65 536 bars, prices within one
//! million fixed-point units, a commission rate of at most 100%) and keep
//! every product and running sum comfortably inside `i64`/`i128`.

use vstd::prelude::*;

verus! {

/// Largest magnitude a fixed-point price (or a slippage offset) may have.
pub const PRICE_LIMIT: i64 = 1_000_000;

/// Largest slippage offset accepted, in fixed-point price units.
pub const SLIPPAGE_LIMIT: i64 = 1_000_000;

/// Largest commission rate accepted, in parts per million (one million = 100%).
pub const COMMISSION_PPM_LIMIT: i64 = 1_000_000;

/// Largest number of bars a price series may have.
pub const MAX_BARS: usize = 65_536;

/// Equity is tracked in millionths of a price unit, so that a commission of
/// `price * ppm` parts per million is an exact integer amount.
pub const SCALE: i64 = 1_000_000;

/// Starting equity of a backtest, in price units.
pub const START_EQUITY: i64 = 10_000;

/// Starting equity in equity scale (millionths of a price unit).
pub const START_EQUITY_SCALED: i128 = 10_000_000_000;

/// A price value within the engine's fixed-point range.
pub open spec fn price_ok(p: i64) -> bool {
    -PRICE_LIMIT <= p && p <= PRICE_LIMIT
}

/// A price series the engine accepts: bounded length, every price in range.
pub open spec fn prices_ok(s: Seq<i64>) -> bool {
    &&& s.len() <= MAX_BARS
    &&& forall|k: int| 0 <= k < s.len() ==> price_ok(#[trigger] s[k])
}

/// A product of two bounded factors is bounded by the product of the bounds.
pub proof fn lemma_mul_abs_bound(a: int, b: int, bound_a: int, bound_b: int)
    by (nonlinear_arith)
    requires
        -bound_a <= a <= bound_a,
        -bound_b <= b <= bound_b,
    ensures
        -(bound_a * bound_b) <= a * b <= bound_a * bound_b,
{
}

/// Euclidean division of a bounded non-negative value keeps its bound:
/// if `0 <= a <= d * m` and `d > 0` then `0 <= a / d <= m`.
pub proof fn lemma_div_bound(a: int, d: int, m: int)
    by (nonlinear_arith)
    requires
        0 < d,
        0 <= a <= d * m,
    ensures
        0 <= a / d <= m,
{
}

} // verus!
