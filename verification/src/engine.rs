//! The backtest engine: single-position trade state machine, transaction
//! costs, equity/drawdown tracking, and the two strategy drivers.
//!
//! Policies, chosen once and applied to both strategies:
//! - equity is tracked in millionths of a price unit, so commission
//!   (`price * rate-in-parts-per-million`) is exact with no rounding;
//! - gross profit and loss are accumulated pre-commission, so commission is
//!   visible only through the equity/drawdown path, not the profit factor;
//! - drawdown compares peak equity against potential equity (open position
//!   marked to the current price, clamped to the peak), is measured in basis
//!   points rounded down, and is capped at 100%;
//! - the profit factor is the exact fraction gross profit / gross loss; with
//!   zero gross loss it is 9999/1 when there is any gross profit and 1/1
//!   otherwise, so it is always defined;
//! - invalid parameters yield a sentinel result (profit factor -1/1, no
//!   trades, zero totals, 100% drawdown) rather than an error.

use vstd::prelude::*;

use crate::indicators::{
    lemma_avg_bounds, lemma_window_sum_abs_bound, rsi_den, rsi_entry_matches, rsi_num,
    calculate_rsi, calculate_sma, window_sum,
};
use crate::limits::{
    lemma_mul_abs_bound, price_ok, prices_ok, COMMISSION_PPM_LIMIT, MAX_BARS, SCALE,
    SLIPPAGE_LIMIT, START_EQUITY_SCALED,
};

verus! {

/// Whether the simulation currently holds an open position.
#[derive(Clone, Copy, PartialEq, Eq, Structural, Debug)]
pub enum Position {
    Flat,
    Long,
}

/// The mathematical state of one backtest, between two bars.
///
/// `entry_price` is the slippage-adjusted cost basis of the open position
/// (0 when flat); `total_profit` and `total_loss` are gross, pre-commission
/// sums over closed trades, in price units; `equity` and `peak_equity` are in
/// millionths of a price unit; `max_drawdown_bp` is in basis points.
pub struct EngineModel {
    pub position: Position,
    pub entry_price: int,
    pub total_profit: int,
    pub total_loss: int,
    pub trades: int,
    pub equity: int,
    pub peak_equity: int,
    pub max_drawdown_bp: int,
}

/// The state every backtest starts from.
pub open spec fn init_model() -> EngineModel {
    EngineModel {
        position: Position::Flat,
        entry_price: 0,
        total_profit: 0,
        total_loss: 0,
        trades: 0,
        equity: START_EQUITY_SCALED as int,
        peak_equity: START_EQUITY_SCALED as int,
        max_drawdown_bp: 0,
    }
}

/// Drawdown tracking for one bar, done before any trade for that bar.
///
/// The peak is raised to the current equity if that is higher. Potential
/// equity marks the open position (if any) to the current price on top of the
/// gross totals; it is clamped to the peak, and the shortfall from the peak,
/// as basis points of the peak rounded down and capped at 100%, raises the
/// running maximum drawdown.
pub open spec fn dd_update(m: EngineModel, price: int) -> EngineModel {
    let peak = if m.equity > m.peak_equity {
        m.equity
    } else {
        m.peak_equity
    };
    let unrealized = if m.position is Long {
        price - m.entry_price
    } else {
        0
    };
    let potential = START_EQUITY_SCALED + (m.total_profit - m.total_loss + unrealized) * SCALE;
    let dd = if peak > 0 {
        let capped = if potential < peak {
            potential
        } else {
            peak
        };
        let bp = (peak - capped) * 10000 / peak;
        let bp_capped = if bp > 10000 {
            10000int
        } else {
            bp
        };
        if bp_capped > m.max_drawdown_bp {
            bp_capped
        } else {
            m.max_drawdown_bp
        }
    } else {
        m.max_drawdown_bp
    };
    EngineModel { peak_equity: peak, max_drawdown_bp: dd, ..m }
}

/// The trade state machine for one bar.
///
/// Entry (only when flat, on an entry signal): the cost basis is the price
/// plus slippage, entry commission is charged against equity, and the trade
/// counter is incremented. Exit (only when long, on an exit signal): the exit
/// price is the price minus slippage, the gross result goes to the profit or
/// loss total, and equity moves by the gross result net of exit commission.
pub open spec fn trade_update(
    m: EngineModel,
    price: int,
    enter: bool,
    exit: bool,
    ppm: int,
    slip: int,
) -> EngineModel {
    if m.position is Flat && enter {
        let entry = price + slip;
        EngineModel {
            position: Position::Long,
            entry_price: entry,
            trades: m.trades + 1,
            equity: m.equity - entry * ppm,
            ..m
        }
    } else if m.position is Long && exit {
        let exit_price = price - slip;
        let gross = exit_price - m.entry_price;
        let equity = m.equity + gross * SCALE - exit_price * ppm;
        if gross > 0 {
            EngineModel {
                position: Position::Flat,
                entry_price: 0,
                total_profit: m.total_profit + gross,
                equity: equity,
                ..m
            }
        } else {
            EngineModel {
                position: Position::Flat,
                entry_price: 0,
                total_loss: m.total_loss - gross,
                equity: equity,
                ..m
            }
        }
    } else {
        m
    }
}

/// One full bar: drawdown tracking first, then the trade state machine.
pub open spec fn step_bar(
    m: EngineModel,
    price: int,
    enter: bool,
    exit: bool,
    ppm: int,
    slip: int,
) -> EngineModel {
    trade_update(dd_update(m, price), price, enter, exit, ppm, slip)
}

/// The executable backtest state; its `model()` view is an `EngineModel`.
pub struct EngineState {
    pub position: Position,
    pub entry_price: i64,
    pub total_profit: i64,
    pub total_loss: i64,
    pub trades: u32,
    pub equity: i128,
    pub peak_equity: i128,
    pub max_drawdown_bp: u32,
}

impl EngineState {
    /// The mathematical state this executable state stands for.
    pub open spec fn model(self) -> EngineModel {
        EngineModel {
            position: self.position,
            entry_price: self.entry_price as int,
            total_profit: self.total_profit as int,
            total_loss: self.total_loss as int,
            trades: self.trades as int,
            equity: self.equity as int,
            peak_equity: self.peak_equity as int,
            max_drawdown_bp: self.max_drawdown_bp as int,
        }
    }

    /// Ranges every reachable state stays in; they keep all step arithmetic
    /// exact. Each trade moves equity by at most 2 on entry and 6 on exit,
    /// in units of a million millionths, so 8 per counted trade bounds the
    /// total excursion, with 6 still in reserve while a position is open.
    pub open spec fn inv(self) -> bool {
        &&& self.trades <= MAX_BARS
        &&& 0 <= self.total_profit
        &&& 0 <= self.total_loss
        &&& self.total_profit + self.total_loss <= (self.trades as int) * 4_000_000 - (
        if self.position is Long {
            4_000_000int
        } else {
            0int
        })
        &&& (self.position is Long ==> -2_000_000 <= self.entry_price <= 2_000_000)
        &&& (self.position is Flat ==> self.entry_price == 0)
        &&& self.equity - START_EQUITY_SCALED <= (self.trades as int) * 8_000_000_000_000 - (
        if self.position is Long {
            6_000_000_000_000int
        } else {
            0int
        })
        &&& START_EQUITY_SCALED - self.equity <= (self.trades as int) * 8_000_000_000_000 - (
        if self.position is Long {
            6_000_000_000_000int
        } else {
            0int
        })
        &&& START_EQUITY_SCALED <= self.peak_equity
        &&& self.peak_equity - START_EQUITY_SCALED <= (self.trades as int) * 8_000_000_000_000
        &&& self.max_drawdown_bp <= 10000
    }

    /// A fresh state: flat, starting equity, no drawdown.
    pub fn new() -> (st: EngineState)
        ensures
            st.inv(),
            st.model() == init_model(),
    {
        EngineState {
            position: Position::Flat,
            entry_price: 0,
            total_profit: 0,
            total_loss: 0,
            trades: 0,
            equity: START_EQUITY_SCALED,
            peak_equity: START_EQUITY_SCALED,
            max_drawdown_bp: 0,
        }
    }
}

/// Executable form of `step_bar`, exact over the fixed-point state.
pub(crate) fn engine_step(
    st: &mut EngineState,
    price: i64,
    enter: bool,
    exit: bool,
    commission_ppm: i64,
    slippage: i64,
)
    requires
        old(st).inv(),
        old(st).trades < MAX_BARS as u32,
        price_ok(price),
        0 <= commission_ppm <= COMMISSION_PPM_LIMIT,
        0 <= slippage <= SLIPPAGE_LIMIT,
    ensures
        final(st).inv(),
        final(st).trades <= old(st).trades + 1,
        final(st).model() == step_bar(
            old(st).model(),
            price as int,
            enter,
            exit,
            commission_ppm as int,
            slippage as int,
        ),
{
    // Drawdown tracking, on the state as it stands before any trade.
    if st.equity > st.peak_equity {
        st.peak_equity = st.equity;
    }
    let unrealized: i64 = match st.position {
        Position::Long => price - st.entry_price,
        Position::Flat => 0,
    };
    let gross_net: i64 = st.total_profit - st.total_loss;
    let potential: i128 = START_EQUITY_SCALED + (gross_net as i128 + unrealized as i128) * (
    SCALE as i128);
    if st.peak_equity > 0 {
        let capped: i128 = if potential < st.peak_equity {
            potential
        } else {
            st.peak_equity
        };
        let shortfall: i128 = st.peak_equity - capped;
        let bp_wide: u128 = (shortfall as u128) * 10000 / (st.peak_equity as u128);
        let bp: u32 = if bp_wide > 10000 {
            10000
        } else {
            bp_wide as u32
        };
        if bp > st.max_drawdown_bp {
            st.max_drawdown_bp = bp;
        }
    }
    // Trade state machine.
    match st.position {
        Position::Flat => {
            if enter {
                let entry: i64 = price + slippage;
                proof {
                    lemma_mul_abs_bound(entry as int, commission_ppm as int, 2_000_000, 1_000_000);
                }
                let commission: i128 = (entry as i128) * (commission_ppm as i128);
                st.position = Position::Long;
                st.entry_price = entry;
                st.trades = st.trades + 1;
                st.equity = st.equity - commission;
            }
        },
        Position::Long => {
            if exit {
                let exit_price: i64 = price - slippage;
                let gross: i64 = exit_price - st.entry_price;
                proof {
                    lemma_mul_abs_bound(
                        exit_price as int,
                        commission_ppm as int,
                        2_000_000,
                        1_000_000,
                    );
                }
                let delta: i128 = (gross as i128) * (SCALE as i128) - (exit_price as i128) * (
                commission_ppm as i128);
                st.equity = st.equity + delta;
                if gross > 0 {
                    st.total_profit = st.total_profit + gross;
                } else {
                    st.total_loss = st.total_loss - gross;
                }
                st.position = Position::Flat;
                st.entry_price = 0;
            }
        },
    }
}

/// The aggregate statistics of one backtest.
///
/// The profit factor is the exact fraction `profit_factor_num /
/// profit_factor_den` (the denominator is always positive);
/// `max_drawdown_bp` is the maximum drawdown in basis points (hundredths of
/// a percent) of peak equity.
#[derive(Clone, Copy, PartialEq, Eq, Structural, Debug)]
pub struct BacktestResult {
    pub profit_factor_num: i64,
    pub profit_factor_den: i64,
    pub trades: u32,
    pub total_profit: i64,
    pub total_loss: i64,
    pub max_drawdown_bp: u32,
}

/// The sentinel returned for invalid parameters: profit factor -1, no
/// trades, zero totals, worst-case 100% drawdown.
pub open spec fn sentinel_result() -> BacktestResult {
    BacktestResult {
        profit_factor_num: -1i64,
        profit_factor_den: 1i64,
        trades: 0u32,
        total_profit: 0i64,
        total_loss: 0i64,
        max_drawdown_bp: 10000u32,
    }
}

/// Profit-factor numerator for a finished run: with zero gross loss, 9999
/// stands for "profitable, no losses" and 1 for "flat"; otherwise the
/// factor is the exact fraction gross profit / gross loss.
pub open spec fn profit_factor_num_of(m: EngineModel) -> int {
    if m.total_loss == 0 {
        if m.total_profit > 0 {
            9999
        } else {
            1
        }
    } else {
        m.total_profit
    }
}

/// Profit-factor denominator for a finished run.
pub open spec fn profit_factor_den_of(m: EngineModel) -> int {
    if m.total_loss == 0 {
        1
    } else {
        m.total_loss
    }
}

/// How a returned result reports a finished run.
pub open spec fn result_matches(r: BacktestResult, m: EngineModel) -> bool {
    &&& r.profit_factor_num == profit_factor_num_of(m)
    &&& r.profit_factor_den == profit_factor_den_of(m)
    &&& r.trades == m.trades
    &&& r.total_profit == m.total_profit
    &&& r.total_loss == m.total_loss
    &&& r.max_drawdown_bp == m.max_drawdown_bp
}

/// Package a finished run into its result record.
fn build_result(st: &EngineState) -> (r: BacktestResult)
    requires
        st.inv(),
    ensures
        result_matches(r, st.model()),
{
    let profit_factor_num: i64 = if st.total_loss == 0 {
        if st.total_profit > 0 {
            9999
        } else {
            1
        }
    } else {
        st.total_profit
    };
    let profit_factor_den: i64 = if st.total_loss == 0 {
        1
    } else {
        st.total_loss
    };
    BacktestResult {
        profit_factor_num,
        profit_factor_den,
        trades: st.trades,
        total_profit: st.total_profit,
        total_loss: st.total_loss,
        max_drawdown_bp: st.max_drawdown_bp,
    }
}

/// The sentinel, as a value.
fn make_sentinel() -> (r: BacktestResult)
    ensures
        r == sentinel_result(),
{
    BacktestResult {
        profit_factor_num: -1,
        profit_factor_den: 1,
        trades: 0,
        total_profit: 0,
        total_loss: 0,
        max_drawdown_bp: 10000,
    }
}

// ---------------------------------------------------------------------------
// Moving-average crossover strategy
// ---------------------------------------------------------------------------

/// Number of bars the crossover run iterates over: one per fast-average
/// window, starting after the first bar where both averages and their
/// predecessors exist.
pub open spec fn sma_bar_count(n: int, short_period: int) -> int {
    n - short_period + 1
}

/// The price index bar `i` of the crossover run reads: bar `i` compares the
/// fast-average window ending at that price.
pub open spec fn sma_price_index(short_period: int, i: int) -> int {
    short_period - 1 + i
}

/// Whether the fast average lies strictly above the slow average at bar `i`,
/// compared exactly by cross-multiplying the window sums. The slow window
/// index is offset by the difference of the series lengths, so both windows
/// end at the same price.
pub open spec fn sma_fast_above(s: Seq<i64>, sp: int, lp: int, i: int) -> bool {
    window_sum(s, i, sp) * lp > window_sum(s, i - (lp - sp), lp) * sp
}

/// Whether the fast average lies strictly below the slow average at bar `i`.
pub open spec fn sma_fast_below(s: Seq<i64>, sp: int, lp: int, i: int) -> bool {
    window_sum(s, i, sp) * lp < window_sum(s, i - (lp - sp), lp) * sp
}

/// Entry signal: strict upward cross between the previous bar and this one.
pub open spec fn sma_enter_signal(s: Seq<i64>, sp: int, lp: int, i: int) -> bool {
    sma_fast_above(s, sp, lp, i) && !sma_fast_above(s, sp, lp, i - 1)
}

/// Exit signal: strict downward cross between the previous bar and this one.
pub open spec fn sma_exit_signal(s: Seq<i64>, sp: int, lp: int, i: int) -> bool {
    sma_fast_below(s, sp, lp, i) && !sma_fast_below(s, sp, lp, i - 1)
}

/// Parameters the crossover backtest accepts; anything else is sentinel.
pub open spec fn sma_params_ok(n: int, sp: int, lp: int, ppm: int, slip: int) -> bool {
    &&& n > lp
    &&& 1 <= sp
    &&& 1 <= lp
    &&& sp < lp
    &&& 0 <= ppm
    &&& 0 <= slip
}

/// The crossover run from bar `i` onward, starting in state `m`.
pub open spec fn sma_run_from(
    s: Seq<i64>,
    sp: int,
    lp: int,
    ppm: int,
    slip: int,
    m: EngineModel,
    i: int,
) -> EngineModel
    decreases sma_bar_count(s.len() as int, sp) - i,
{
    if 0 <= i && i < sma_bar_count(s.len() as int, sp) {
        sma_run_from(
            s,
            sp,
            lp,
            ppm,
            slip,
            step_bar(
                m,
                s[sma_price_index(sp, i)] as int,
                sma_enter_signal(s, sp, lp, i),
                sma_exit_signal(s, sp, lp, i),
                ppm,
                slip,
            ),
            i + 1,
        )
    } else {
        m
    }
}

/// The finished crossover run: from the first fully-aligned bar, in the
/// initial state.
pub open spec fn sma_backtest_model(s: Seq<i64>, sp: int, lp: int, ppm: int, slip: int)
    -> EngineModel {
    sma_run_from(s, sp, lp, ppm, slip, init_model(), (lp - sp) + 1)
}

/// Backtest of the moving-average crossover strategy.
///
/// Enters long on a strict upward cross of the fast average over the slow
/// one, exits on a strict downward cross, applying slippage and commission
/// as `step_bar` says. Invalid parameters (series not longer than the slow
/// period, a zero period, fast period not shorter than slow, negative
/// commission or slippage) yield the sentinel result.
///
/// The two average series have different lengths; the slow one is indexed
/// with a constant offset equal to the difference, so both windows end at
/// the same price. Every such index, and the mapping back to the price
/// index, is proved in range for every bar the loop visits, so no
/// out-of-range read or abort path exists.
pub fn run_backtest_sma_cross(
    close_prices: &Vec<i64>,
    short_period: usize,
    long_period: usize,
    commission_ppm: i64,
    slippage: i64,
) -> (r: BacktestResult)
    requires
        prices_ok(close_prices@),
        commission_ppm <= COMMISSION_PPM_LIMIT,
        slippage <= SLIPPAGE_LIMIT,
    ensures
        sma_params_ok(
            close_prices@.len() as int,
            short_period as int,
            long_period as int,
            commission_ppm as int,
            slippage as int,
        ) ==> result_matches(
            r,
            sma_backtest_model(
                close_prices@,
                short_period as int,
                long_period as int,
                commission_ppm as int,
                slippage as int,
            ),
        ),
        !sma_params_ok(
            close_prices@.len() as int,
            short_period as int,
            long_period as int,
            commission_ppm as int,
            slippage as int,
        ) ==> r == sentinel_result(),
        short_period >= long_period ==> r == sentinel_result(),
        commission_ppm < 0 || slippage < 0 ==> r == sentinel_result(),
        r.max_drawdown_bp <= 10000,
{
    let n = close_prices.len();
    if n <= long_period || short_period == 0 || long_period == 0 || short_period >= long_period
        || commission_ppm < 0 || slippage < 0 {
        return make_sentinel();
    }
    let short_sums = calculate_sma(close_prices, short_period);
    let long_sums = calculate_sma(close_prices, long_period);
    let offset = long_period - short_period;
    let ghost s = close_prices@;
    let ghost sp = short_period as int;
    let ghost lp = long_period as int;
    let ghost ppm = commission_ppm as int;
    let ghost slip = slippage as int;
    let mut st = EngineState::new();
    let mut i: usize = offset + 1;
    while i < short_sums.len()
        invariant
            prices_ok(s),
            s == close_prices@,
            1 <= sp < lp < n,
            sp == short_period as int,
            lp == long_period as int,
            ppm == commission_ppm as int,
            slip == slippage as int,
            0 <= ppm <= COMMISSION_PPM_LIMIT,
            0 <= slip <= SLIPPAGE_LIMIT,
            n == s.len() <= MAX_BARS,
            short_sums@.len() == n - sp + 1,
            long_sums@.len() == n - lp + 1,
            forall|j: int|
                0 <= j < short_sums@.len() ==> short_sums@[j] == window_sum(s, j, sp),
            forall|j: int| 0 <= j < long_sums@.len() ==> long_sums@[j] == window_sum(s, j, lp),
            offset == long_period - short_period,
            lp - sp + 1 <= i <= short_sums@.len(),
            st.inv(),
            st.trades as int <= i - (lp - sp),
            sma_run_from(s, sp, lp, ppm, slip, st.model(), i as int) == sma_backtest_model(
                s,
                sp,
                lp,
                ppm,
                slip,
            ),
        decreases short_sums@.len() - i,
    {
        let li = i - offset;
        proof {
            lemma_window_sum_abs_bound(s, i as int, sp);
            lemma_window_sum_abs_bound(s, i as int - 1, sp);
            lemma_window_sum_abs_bound(s, li as int, lp);
            lemma_window_sum_abs_bound(s, li as int - 1, lp);
            lemma_mul_abs_bound(window_sum(s, i as int, sp), lp, 65_536_000_000, 65_536);
            lemma_mul_abs_bound(window_sum(s, i as int - 1, sp), lp, 65_536_000_000, 65_536);
            lemma_mul_abs_bound(window_sum(s, li as int, lp), sp, 65_536_000_000, 65_536);
            lemma_mul_abs_bound(window_sum(s, li as int - 1, lp), sp, 65_536_000_000, 65_536);
        }
        let fast_cur: i128 = (short_sums[i] as i128) * (long_period as i128);
        let fast_prev: i128 = (short_sums[i - 1] as i128) * (long_period as i128);
        let slow_cur: i128 = (long_sums[li] as i128) * (short_period as i128);
        let slow_prev: i128 = (long_sums[li - 1] as i128) * (short_period as i128);
        let enter = fast_cur > slow_cur && !(fast_prev > slow_prev);
        let exit = fast_cur < slow_cur && !(fast_prev < slow_prev);
        let price = close_prices[short_period - 1 + i];
        proof {
            assert(enter == sma_enter_signal(s, sp, lp, i as int));
            assert(exit == sma_exit_signal(s, sp, lp, i as int));
        }
        engine_step(&mut st, price, enter, exit, commission_ppm, slippage);
        i = i + 1;
    }
    build_result(&st)
}

// ---------------------------------------------------------------------------
// Relative-strength-index threshold strategy
// ---------------------------------------------------------------------------

/// Whether the index value at price index `j` lies strictly above `level`,
/// compared exactly by cross-multiplying the fraction.
pub open spec fn rsi_above_level(s: Seq<i64>, period: int, j: int, level: int) -> bool {
    rsi_num(s, period, j) > level * rsi_den(s, period, j)
}

/// Whether the index value at price index `j` lies strictly below `level`.
pub open spec fn rsi_below_level(s: Seq<i64>, period: int, j: int, level: int) -> bool {
    rsi_num(s, period, j) < level * rsi_den(s, period, j)
}

/// Entry signal: strict upward cross of the index over the buy level.
pub open spec fn rsi_enter_signal(s: Seq<i64>, period: int, buy: int, i: int) -> bool {
    rsi_above_level(s, period, i, buy) && !rsi_above_level(s, period, i - 1, buy)
}

/// Exit signal: strict downward cross of the index under the sell level.
pub open spec fn rsi_exit_signal(s: Seq<i64>, period: int, sell: int, i: int) -> bool {
    rsi_below_level(s, period, i, sell) && !rsi_below_level(s, period, i - 1, sell)
}

/// Parameters the threshold backtest accepts; anything else is sentinel.
pub open spec fn rsi_params_ok(n: int, period: int, buy: int, sell: int, ppm: int, slip: int)
    -> bool {
    &&& n > period
    &&& 1 <= period
    &&& buy < sell
    &&& 0 <= ppm
    &&& 0 <= slip
}

/// The threshold run from price index `i` onward, starting in state `m`.
pub open spec fn rsi_run_from(
    s: Seq<i64>,
    period: int,
    buy: int,
    sell: int,
    ppm: int,
    slip: int,
    m: EngineModel,
    i: int,
) -> EngineModel
    decreases s.len() - i,
{
    if 0 <= i && i < s.len() {
        rsi_run_from(
            s,
            period,
            buy,
            sell,
            ppm,
            slip,
            step_bar(
                m,
                s[i] as int,
                rsi_enter_signal(s, period, buy, i),
                rsi_exit_signal(s, period, sell, i),
                ppm,
                slip,
            ),
            i + 1,
        )
    } else {
        m
    }
}

/// The finished threshold run: from the first bar where the index and its
/// predecessor both exist, in the initial state.
pub open spec fn rsi_backtest_model(
    s: Seq<i64>,
    period: int,
    buy: int,
    sell: int,
    ppm: int,
    slip: int,
) -> EngineModel {
    rsi_run_from(s, period, buy, sell, ppm, slip, init_model(), period + 1)
}

/// Backtest of the relative-strength-index threshold strategy.
///
/// Enters long on a strict upward cross of the index over the buy level,
/// exits on a strict downward cross under the sell level, applying slippage
/// and commission as `step_bar` says. Invalid parameters (series not longer
/// than the period, a zero period, buy level not below sell level, negative
/// commission or slippage) yield the sentinel result.
pub fn run_backtest_rsi(
    close_prices: &Vec<i64>,
    period: usize,
    buy_level: i64,
    sell_level: i64,
    commission_ppm: i64,
    slippage: i64,
) -> (r: BacktestResult)
    requires
        prices_ok(close_prices@),
        commission_ppm <= COMMISSION_PPM_LIMIT,
        slippage <= SLIPPAGE_LIMIT,
    ensures
        rsi_params_ok(
            close_prices@.len() as int,
            period as int,
            buy_level as int,
            sell_level as int,
            commission_ppm as int,
            slippage as int,
        ) ==> result_matches(
            r,
            rsi_backtest_model(
                close_prices@,
                period as int,
                buy_level as int,
                sell_level as int,
                commission_ppm as int,
                slippage as int,
            ),
        ),
        !rsi_params_ok(
            close_prices@.len() as int,
            period as int,
            buy_level as int,
            sell_level as int,
            commission_ppm as int,
            slippage as int,
        ) ==> r == sentinel_result(),
        buy_level >= sell_level ==> r == sentinel_result(),
        commission_ppm < 0 || slippage < 0 ==> r == sentinel_result(),
        r.max_drawdown_bp <= 10000,
{
    let n = close_prices.len();
    if n <= period || period == 0 || buy_level >= sell_level || commission_ppm < 0 || slippage < 0 {
        return make_sentinel();
    }
    let rsi_values = calculate_rsi(close_prices, period);
    let ghost s = close_prices@;
    let ghost p = period as int;
    let ghost buy = buy_level as int;
    let ghost sell = sell_level as int;
    let ghost ppm = commission_ppm as int;
    let ghost slip = slippage as int;
    let mut st = EngineState::new();
    let mut i: usize = period + 1;
    while i < n
        invariant
            prices_ok(s),
            s == close_prices@,
            1 <= p < n,
            p == period as int,
            buy == buy_level as int,
            sell == sell_level as int,
            ppm == commission_ppm as int,
            slip == slippage as int,
            0 <= ppm <= COMMISSION_PPM_LIMIT,
            0 <= slip <= SLIPPAGE_LIMIT,
            n == s.len() <= MAX_BARS,
            rsi_values@.len() == n,
            forall|j: int|
                0 <= j < rsi_values@.len() ==> rsi_entry_matches(
                    #[trigger] rsi_values@[j],
                    s,
                    p,
                    j,
                ),
            p + 1 <= i <= n,
            st.inv(),
            st.trades as int <= i - p,
            rsi_run_from(s, p, buy, sell, ppm, slip, st.model(), i as int) == rsi_backtest_model(
                s,
                p,
                buy,
                sell,
                ppm,
                slip,
            ),
        decreases n - i,
    {
        proof {
            assert(rsi_entry_matches(rsi_values@[i as int], s, p, i as int));
            assert(rsi_entry_matches(rsi_values@[i as int - 1], s, p, i as int - 1));
            lemma_avg_bounds(s, p, i as int);
            lemma_avg_bounds(s, p, i as int - 1);
        }
        let cur = rsi_values[i].unwrap();
        let prev = rsi_values[i - 1].unwrap();
        proof {
            lemma_mul_abs_bound(buy, cur.den as int, 9_223_372_036_854_775_808, 4_000_001);
            lemma_mul_abs_bound(buy, prev.den as int, 9_223_372_036_854_775_808, 4_000_001);
            lemma_mul_abs_bound(sell, cur.den as int, 9_223_372_036_854_775_808, 4_000_001);
            lemma_mul_abs_bound(sell, prev.den as int, 9_223_372_036_854_775_808, 4_000_001);
        }
        let enter = (cur.num as i128) > (buy_level as i128) * (cur.den as i128) && !((prev.num
            as i128) > (buy_level as i128) * (prev.den as i128));
        let exit = (cur.num as i128) < (sell_level as i128) * (cur.den as i128) && !((prev.num
            as i128) < (sell_level as i128) * (prev.den as i128));
        let price = close_prices[i];
        proof {
            assert(enter == rsi_enter_signal(s, p, buy, i as int));
            assert(exit == rsi_exit_signal(s, p, sell, i as int));
        }
        engine_step(&mut st, price, enter, exit, commission_ppm, slippage);
        i = i + 1;
    }
    build_result(&st)
}

} // verus!
