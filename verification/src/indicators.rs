//! Indicator engine: rolling-window simple moving average and
//! Wilder-smoothed relative-strength index, in exact integer arithmetic.

use vstd::prelude::*;

use crate::limits::{
    lemma_div_bound, lemma_mul_abs_bound, price_ok, prices_ok, MAX_BARS, PRICE_LIMIT,
};

verus! {

/// Sum of the `len` prices starting at index `start`.
///
/// The simple moving average of that window is this sum divided by `len`;
/// the engine keeps the sum so the average stays an exact fraction.
pub open spec fn window_sum(s: Seq<i64>, start: int, len: int) -> int
    decreases len,
{
    if len <= 0 {
        0
    } else {
        s[start] + window_sum(s, start + 1, len - 1)
    }
}

/// A window sum grows at its right edge by the newly covered price.
pub proof fn lemma_window_sum_extend(s: Seq<i64>, start: int, len: int)
    requires
        1 <= len,
    ensures
        window_sum(s, start, len) == window_sum(s, start, len - 1) + s[start + len - 1],
    decreases len,
{
    if len > 1 {
        lemma_window_sum_extend(s, start + 1, len - 1);
        assert(window_sum(s, start, len) == s[start] + window_sum(s, start + 1, len - 1));
        assert(window_sum(s, start, len - 1) == s[start] + window_sum(s, start + 1, len - 2));
    } else {
        assert(window_sum(s, start, 1) == s[start] + window_sum(s, start + 1, 0));
    }
}

/// Sliding a window one step right adds the entering price and removes the
/// leaving one.
pub proof fn lemma_window_sum_slide(s: Seq<i64>, start: int, len: int)
    requires
        1 <= len,
    ensures
        window_sum(s, start + 1, len) == window_sum(s, start, len) - s[start] + s[start + len],
{
    lemma_window_sum_extend(s, start + 1, len);
    assert(window_sum(s, start, len) == s[start] + window_sum(s, start + 1, len - 1));
}

/// A window sum over two adjacent windows splits into their two sums.
pub proof fn lemma_window_sum_split(s: Seq<i64>, start: int, left: int, right: int)
    requires
        0 <= left,
        0 <= right,
    ensures
        window_sum(s, start, left + right) == window_sum(s, start, left) + window_sum(
            s,
            start + left,
            right,
        ),
    decreases left,
{
    if left > 0 {
        lemma_window_sum_split(s, start + 1, left - 1, right);
    }
}

/// A window of in-range prices has its sum bounded by `len` prices at the limit.
pub proof fn lemma_window_sum_abs_bound(s: Seq<i64>, start: int, len: int)
    requires
        0 <= len,
        0 <= start,
        start + len <= s.len(),
        forall|k: int| 0 <= k < s.len() ==> price_ok(#[trigger] s[k]),
    ensures
        -(len * PRICE_LIMIT) <= window_sum(s, start, len) <= len * PRICE_LIMIT,
    decreases len,
{
    if len > 0 {
        lemma_window_sum_abs_bound(s, start + 1, len - 1);
    }
}

/// A window sum is at least `len` times a lower bound on its prices.
pub proof fn lemma_window_sum_lower(s: Seq<i64>, start: int, len: int, v: int)
    requires
        0 <= len,
        0 <= start,
        start + len <= s.len(),
        forall|k: int| start <= k < start + len ==> v <= #[trigger] s[k],
    ensures
        len * v <= window_sum(s, start, len),
    decreases len,
{
    if len > 0 {
        lemma_window_sum_lower(s, start + 1, len - 1, v);
        assert(len * v == v + (len - 1) * v) by (nonlinear_arith);
    } else {
        assert(len * v == 0) by (nonlinear_arith)
            requires
                len == 0,
        ;
    }
}

/// A window sum is at most `len` times an upper bound on its prices.
pub proof fn lemma_window_sum_upper(s: Seq<i64>, start: int, len: int, v: int)
    requires
        0 <= len,
        0 <= start,
        start + len <= s.len(),
        forall|k: int| start <= k < start + len ==> #[trigger] s[k] <= v,
    ensures
        window_sum(s, start, len) <= len * v,
    decreases len,
{
    if len > 0 {
        lemma_window_sum_upper(s, start + 1, len - 1, v);
        assert(len * v == v + (len - 1) * v) by (nonlinear_arith);
    } else {
        assert(len * v == 0) by (nonlinear_arith)
            requires
                len == 0,
        ;
    }
}

/// The non-negative gain of the bar-to-bar change ending at price index `i`.
pub open spec fn gain_at(s: Seq<i64>, i: int) -> int {
    if s[i] - s[i - 1] > 0 {
        s[i] - s[i - 1]
    } else {
        0
    }
}

/// The non-negative loss magnitude of the change ending at price index `i`.
pub open spec fn loss_at(s: Seq<i64>, i: int) -> int {
    if s[i] - s[i - 1] > 0 {
        0
    } else {
        s[i - 1] - s[i]
    }
}

/// Sum of the gains of the changes ending at price indices `1..=n`.
pub open spec fn gain_sum(s: Seq<i64>, n: int) -> int
    decreases n,
{
    if n < 1 {
        0
    } else {
        gain_sum(s, n - 1) + gain_at(s, n)
    }
}

/// Sum of the loss magnitudes of the changes ending at price indices `1..=n`.
pub open spec fn loss_sum(s: Seq<i64>, n: int) -> int
    decreases n,
{
    if n < 1 {
        0
    } else {
        loss_sum(s, n - 1) + loss_at(s, n)
    }
}

/// Wilder-smoothed average gain anchored at price index `j`.
///
/// The first average, at `j == period`, is the integer mean of the first
/// `period` gains; each later one is `(avg * (period - 1) + gain) / period`.
/// Divisions round down, the fixed-point policy of the whole engine.
pub open spec fn avg_gain(s: Seq<i64>, period: int, j: int) -> int
    decreases j,
{
    if period <= 0 || j <= period {
        gain_sum(s, period) / period
    } else {
        (avg_gain(s, period, j - 1) * (period - 1) + gain_at(s, j)) / period
    }
}

/// Wilder-smoothed average loss anchored at price index `j`.
pub open spec fn avg_loss(s: Seq<i64>, period: int, j: int) -> int
    decreases j,
{
    if period <= 0 || j <= period {
        loss_sum(s, period) / period
    } else {
        (avg_loss(s, period, j - 1) * (period - 1) + loss_at(s, j)) / period
    }
}

/// Whether the relative-strength index has a value at price index `j`:
/// the series must be longer than `period`, and the first `period` indices
/// have no value.
pub open spec fn rsi_defined(s: Seq<i64>, period: int, j: int) -> bool {
    &&& 1 <= period
    &&& period < s.len()
    &&& period <= j < s.len()
}

/// Numerator of the exact relative-strength index value at price index `j`.
///
/// With average gain `g` and average loss `l`, the index is
/// `100 - 100 / (1 + g / l) == 100 * g / (g + l)`; a zero average loss is
/// treated as infinite relative strength, an index of exactly 100.
pub open spec fn rsi_num(s: Seq<i64>, period: int, j: int) -> int {
    if avg_loss(s, period, j) == 0 {
        100
    } else {
        100 * avg_gain(s, period, j)
    }
}

/// Denominator of the exact relative-strength index value at price index `j`.
pub open spec fn rsi_den(s: Seq<i64>, period: int, j: int) -> int {
    if avg_loss(s, period, j) == 0 {
        1
    } else {
        avg_gain(s, period, j) + avg_loss(s, period, j)
    }
}

/// One relative-strength index value, an exact fraction `num / den`
/// between 0 and 100.
#[derive(Clone, Copy, PartialEq, Eq, Structural, Debug)]
pub struct RsiValue {
    pub num: u64,
    pub den: u64,
}

/// What one output slot of `calculate_rsi` holds.
pub open spec fn rsi_entry_matches(e: Option<RsiValue>, s: Seq<i64>, period: int, j: int) -> bool {
    if rsi_defined(s, period, j) {
        &&& e matches Some(v)
        &&& v.num == rsi_num(s, period, j)
        &&& v.den == rsi_den(s, period, j)
    } else {
        e is None
    }
}

/// Sums of in-range changes are bounded by `n` changes at the largest magnitude.
proof fn lemma_change_sum_bounds(s: Seq<i64>, n: int)
    requires
        0 <= n < s.len(),
        forall|k: int| 0 <= k < s.len() ==> price_ok(#[trigger] s[k]),
    ensures
        0 <= gain_sum(s, n) <= n * (2 * PRICE_LIMIT),
        0 <= loss_sum(s, n) <= n * (2 * PRICE_LIMIT),
    decreases n,
{
    if n >= 1 {
        lemma_change_sum_bounds(s, n - 1);
    }
}

/// Both Wilder averages stay within one change's largest magnitude.
pub proof fn lemma_avg_bounds(s: Seq<i64>, period: int, j: int)
    requires
        1 <= period < s.len(),
        j < s.len(),
        forall|k: int| 0 <= k < s.len() ==> price_ok(#[trigger] s[k]),
    ensures
        0 <= avg_gain(s, period, j) <= 2 * PRICE_LIMIT,
        0 <= avg_loss(s, period, j) <= 2 * PRICE_LIMIT,
    decreases j,
{
    if j <= period {
        lemma_change_sum_bounds(s, period);
        lemma_div_bound(gain_sum(s, period), period, 2 * PRICE_LIMIT);
        lemma_div_bound(loss_sum(s, period), period, 2 * PRICE_LIMIT);
    } else {
        lemma_avg_bounds(s, period, j - 1);
        let g = avg_gain(s, period, j - 1);
        let l = avg_loss(s, period, j - 1);
        assert(0 <= g * (period - 1) + gain_at(s, j) <= period * (2 * PRICE_LIMIT))
            by (nonlinear_arith)
            requires
                0 <= g <= 2 * PRICE_LIMIT,
                0 <= gain_at(s, j) <= 2 * PRICE_LIMIT,
                1 <= period,
        ;
        assert(0 <= l * (period - 1) + loss_at(s, j) <= period * (2 * PRICE_LIMIT))
            by (nonlinear_arith)
            requires
                0 <= l <= 2 * PRICE_LIMIT,
                0 <= loss_at(s, j) <= 2 * PRICE_LIMIT,
                1 <= period,
        ;
        lemma_div_bound(g * (period - 1) + gain_at(s, j), period, 2 * PRICE_LIMIT);
        lemma_div_bound(l * (period - 1) + loss_at(s, j), period, 2 * PRICE_LIMIT);
    }
}

/// Relative-strength index over `prices`, one optional value per input price.
///
/// A series not longer than `period` (or a zero `period`) yields a value-free
/// series of the same length rather than an error. Otherwise the first
/// `period` outputs are absent and every later index `j` carries the exact
/// fraction built from the Wilder-smoothed average gain and loss at `j`.
pub fn calculate_rsi(prices: &Vec<i64>, period: usize) -> (r: Vec<Option<RsiValue>>)
    requires
        prices_ok(prices@),
    ensures
        r@.len() == prices@.len(),
        forall|j: int|
            0 <= j < r@.len() ==> rsi_entry_matches(#[trigger] r@[j], prices@, period as int, j),
{
    let n = prices.len();
    let mut r: Vec<Option<RsiValue>> = Vec::new();
    if n <= period || period == 0 {
        while r.len() < n
            invariant
                r@.len() <= n == prices@.len(),
                n <= period || period == 0,
                forall|j: int| 0 <= j < r@.len() ==> #[trigger] r@[j] is None,
            decreases n - r@.len(),
        {
            r.push(None);
        }
        return r;
    }
    let mut gains: Vec<u64> = Vec::new();
    let mut losses: Vec<u64> = Vec::new();
    let mut i: usize = 1;
    while i < n
        invariant
            1 <= i <= n == prices@.len(),
            prices_ok(prices@),
            gains@.len() == i - 1,
            losses@.len() == i - 1,
            forall|k: int|
                0 <= k < gains@.len() ==> #[trigger] gains@[k] == gain_at(prices@, k + 1),
            forall|k: int|
                0 <= k < losses@.len() ==> #[trigger] losses@[k] == loss_at(prices@, k + 1),
        decreases n - i,
    {
        if prices[i] > prices[i - 1] {
            gains.push((prices[i] - prices[i - 1]) as u64);
            losses.push(0);
        } else {
            gains.push(0);
            losses.push((prices[i - 1] - prices[i]) as u64);
        }
        i = i + 1;
    }
    let mut k: usize = 0;
    let mut gsum: u64 = 0;
    let mut lsum: u64 = 0;
    while k < period
        invariant
            0 <= k <= period,
            1 <= period < n == prices@.len() <= MAX_BARS,
            prices_ok(prices@),
            gains@.len() == n - 1,
            losses@.len() == n - 1,
            forall|q: int|
                0 <= q < gains@.len() ==> #[trigger] gains@[q] == gain_at(prices@, q + 1),
            forall|q: int|
                0 <= q < losses@.len() ==> #[trigger] losses@[q] == loss_at(prices@, q + 1),
            gsum == gain_sum(prices@, k as int),
            lsum == loss_sum(prices@, k as int),
            gsum <= (k as int) * 2_000_000,
            lsum <= (k as int) * 2_000_000,
        decreases period - k,
    {
        proof {
            assert(gains@[k as int] == gain_at(prices@, k as int + 1));
            assert(losses@[k as int] == loss_at(prices@, k as int + 1));
            assert(price_ok(prices@[k as int]) && price_ok(prices@[k as int + 1]));
            assert(gains@[k as int] <= 2_000_000 && losses@[k as int] <= 2_000_000);
        }
        gsum = gsum + gains[k];
        lsum = lsum + losses[k];
        k = k + 1;
    }
    let mut avg_g: u64 = gsum / (period as u64);
    let mut avg_l: u64 = lsum / (period as u64);
    proof {
        lemma_div_bound(gsum as int, period as int, 2_000_000);
        lemma_div_bound(lsum as int, period as int, 2_000_000);
    }
    let mut j: usize = 0;
    while j < period
        invariant
            0 <= j <= period < n == prices@.len(),
            r@.len() == j,
            forall|q: int| 0 <= q < r@.len() ==> #[trigger] r@[q] is None,
        decreases period - j,
    {
        r.push(None);
        j = j + 1;
    }
    if avg_l == 0 {
        r.push(Some(RsiValue { num: 100, den: 1 }));
    } else {
        r.push(Some(RsiValue { num: 100 * avg_g, den: avg_g + avg_l }));
    }
    let mut gi: usize = period;
    while gi < n - 1
        invariant
            1 <= period <= gi <= n - 1,
            n == prices@.len() <= MAX_BARS,
            prices_ok(prices@),
            gains@.len() == n - 1,
            losses@.len() == n - 1,
            forall|q: int|
                0 <= q < gains@.len() ==> #[trigger] gains@[q] == gain_at(prices@, q + 1),
            forall|q: int|
                0 <= q < losses@.len() ==> #[trigger] losses@[q] == loss_at(prices@, q + 1),
            avg_g == avg_gain(prices@, period as int, gi as int),
            avg_l == avg_loss(prices@, period as int, gi as int),
            avg_g <= 2_000_000,
            avg_l <= 2_000_000,
            r@.len() == gi + 1,
            forall|q: int|
                0 <= q < r@.len() ==> rsi_entry_matches(
                    #[trigger] r@[q],
                    prices@,
                    period as int,
                    q,
                ),
        decreases n - gi,
    {
        let g_new = gains[gi];
        let l_new = losses[gi];
        proof {
            assert(gains@[gi as int] == gain_at(prices@, gi as int + 1));
            assert(losses@[gi as int] == loss_at(prices@, gi as int + 1));
            assert(price_ok(prices@[gi as int]) && price_ok(prices@[gi as int + 1]));
            lemma_mul_abs_bound(avg_g as int, (period - 1) as int, 2_000_000, 65_535);
            lemma_mul_abs_bound(avg_l as int, (period - 1) as int, 2_000_000, 65_535);
            assert(avg_g * ((period - 1) as int) >= 0) by (nonlinear_arith)
                requires
                    avg_g >= 0,
                    period >= 1,
            ;
            assert(avg_l * ((period - 1) as int) >= 0) by (nonlinear_arith)
                requires
                    avg_l >= 0,
                    period >= 1,
            ;
        }
        let num_g: u64 = avg_g * (period as u64 - 1) + g_new;
        let num_l: u64 = avg_l * (period as u64 - 1) + l_new;
        proof {
            assert(avg_g * ((period - 1) as int) + g_new <= (period as int) * 2_000_000)
                by (nonlinear_arith)
                requires
                    0 <= avg_g <= 2_000_000,
                    0 <= g_new <= 2_000_000,
                    1 <= period,
            ;
            assert(avg_l * ((period - 1) as int) + l_new <= (period as int) * 2_000_000)
                by (nonlinear_arith)
                requires
                    0 <= avg_l <= 2_000_000,
                    0 <= l_new <= 2_000_000,
                    1 <= period,
            ;
            lemma_div_bound(num_g as int, period as int, 2_000_000);
            lemma_div_bound(num_l as int, period as int, 2_000_000);
        }
        avg_g = num_g / (period as u64);
        avg_l = num_l / (period as u64);
        if avg_l == 0 {
            r.push(Some(RsiValue { num: 100, den: 1 }));
        } else {
            r.push(Some(RsiValue { num: 100 * avg_g, den: avg_g + avg_l }));
        }
        gi = gi + 1;
    }
    r
}

/// Rolling-window moving average over `prices`, one window sum per output.
///
/// A window that does not fit (`period == 0` or fewer prices than `period`)
/// yields an empty series rather than an error. Otherwise output `j` is the
/// sum of the `period` prices starting at `j`, computed with a running sum;
/// the moving average at `j` is that sum divided by `period`, and callers
/// compare averages exactly by cross-multiplying the sums.
pub fn calculate_sma(prices: &Vec<i64>, period: usize) -> (r: Vec<i64>)
    requires
        prices_ok(prices@),
    ensures
        period == 0 || prices@.len() < period ==> r@.len() == 0,
        1 <= period <= prices@.len() ==> r@.len() == prices@.len() - period + 1,
        forall|j: int| 0 <= j < r@.len() ==> r@[j] == window_sum(prices@, j, period as int),
{
    let mut r: Vec<i64> = Vec::new();
    if prices.len() < period || period == 0 {
        return r;
    }
    let mut sum: i64 = 0;
    let mut k: usize = 0;
    while k < period
        invariant
            0 <= k <= period,
            1 <= period <= prices@.len() <= MAX_BARS,
            prices_ok(prices@),
            sum == window_sum(prices@, 0, k as int),
            -((k as int) * PRICE_LIMIT) <= sum <= (k as int) * PRICE_LIMIT,
        decreases period - k,
    {
        proof {
            lemma_window_sum_extend(prices@, 0, k as int + 1);
        }
        sum = sum + prices[k];
        k = k + 1;
    }
    r.push(sum);
    let mut i: usize = period;
    while i < prices.len()
        invariant
            1 <= period <= i <= prices@.len() <= MAX_BARS,
            prices_ok(prices@),
            r@.len() == i - period + 1,
            forall|j: int| 0 <= j < r@.len() ==> r@[j] == window_sum(prices@, j, period as int),
            sum == window_sum(prices@, i - period, period as int),
            -((period as int) * PRICE_LIMIT) <= sum <= (period as int) * PRICE_LIMIT,
        decreases prices@.len() - i,
    {
        proof {
            lemma_window_sum_slide(prices@, i - period, period as int);
            lemma_window_sum_abs_bound(prices@, i - period + 1, period as int);
        }
        sum = sum + prices[i] - prices[i - period];
        r.push(sum);
        i = i + 1;
    }
    r
}

} // verus!
