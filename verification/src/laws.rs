//! Engine-wide laws, proved once and for all inputs.

use vstd::prelude::*;

use crate::engine::{
    dd_update, init_model, profit_factor_den_of, profit_factor_num_of, rsi_run_from,
    sma_backtest_model, sma_bar_count, sma_enter_signal, sma_exit_signal, sma_fast_above,
    sma_fast_below, sma_params_ok, sma_price_index, sma_run_from, step_bar, trade_update,
    EngineModel,
};
use crate::indicators::{
    avg_gain, avg_loss, gain_sum, lemma_window_sum_lower, lemma_window_sum_split,
    lemma_window_sum_upper, loss_sum, rsi_defined, rsi_den, rsi_num, window_sum,
};
use crate::limits::START_EQUITY_SCALED;

verus! {

/// Over a constant price series, every window sum is the window length times
/// the constant: the moving average of a constant series is that constant.
pub proof fn lemma_sma_constant(s: Seq<i64>, c: i64, start: int, len: int)
    requires
        0 <= len,
        0 <= start,
        start + len <= s.len(),
        forall|k: int| 0 <= k < s.len() ==> #[trigger] s[k] == c,
    ensures
        window_sum(s, start, len) == len * c,
    decreases len,
{
    if len > 0 {
        lemma_sma_constant(s, c, start + 1, len - 1);
        assert(len * c == c + (len - 1) * c) by (nonlinear_arith);
    } else {
        assert(len * c == 0) by (nonlinear_arith)
            requires
                len == 0,
        ;
    }
}

/// Over a constant price series there are no gains and no losses.
proof fn lemma_const_change_sums(s: Seq<i64>, c: i64, n: int)
    requires
        0 <= n < s.len(),
        forall|k: int| 0 <= k < s.len() ==> #[trigger] s[k] == c,
    ensures
        gain_sum(s, n) == 0,
        loss_sum(s, n) == 0,
    decreases n,
{
    if n >= 1 {
        lemma_const_change_sums(s, c, n - 1);
    }
}

/// Over a constant price series both Wilder averages are zero everywhere.
proof fn lemma_const_avg_zero(s: Seq<i64>, c: i64, period: int, j: int)
    requires
        1 <= period < s.len(),
        j < s.len(),
        forall|k: int| 0 <= k < s.len() ==> #[trigger] s[k] == c,
    ensures
        avg_gain(s, period, j) == 0,
        avg_loss(s, period, j) == 0,
    decreases j,
{
    assert(0int / period == 0) by (nonlinear_arith)
        requires
            1 <= period,
    ;
    if j <= period {
        lemma_const_change_sums(s, c, period);
    } else {
        lemma_const_avg_zero(s, c, period, j - 1);
        assert(0int * (period - 1) == 0) by (nonlinear_arith);
    }
}

/// Over a constant price series the relative-strength index, wherever it is
/// defined, is exactly 100: both averages are zero, and a zero average loss
/// counts as infinite relative strength.
pub proof fn lemma_rsi_constant(s: Seq<i64>, c: i64, period: int, j: int)
    requires
        rsi_defined(s, period, j),
        forall|k: int| 0 <= k < s.len() ==> #[trigger] s[k] == c,
    ensures
        rsi_num(s, period, j) == 100,
        rsi_den(s, period, j) == 1,
{
    lemma_const_avg_zero(s, c, period, j);
}

/// One bar never lowers the running maximum drawdown, and never pushes it
/// past 100%.
proof fn lemma_step_drawdown(m: EngineModel, price: int, enter: bool, exit: bool, ppm: int,
    slip: int)
    requires
        0 <= m.max_drawdown_bp <= 10000,
    ensures
        m.max_drawdown_bp <= step_bar(m, price, enter, exit, ppm, slip).max_drawdown_bp <= 10000,
{
    let d = dd_update(m, price);
    let peak = if m.equity > m.peak_equity {
        m.equity
    } else {
        m.peak_equity
    };
    if peak > 0 {
        let unrealized = if m.position is Long {
            price - m.entry_price
        } else {
            0
        };
        let potential = START_EQUITY_SCALED + (m.total_profit - m.total_loss + unrealized)
            * crate::limits::SCALE;
        let capped = if potential < peak {
            potential
        } else {
            peak
        };
        assert((peak - capped) * 10000 / peak >= 0) by (nonlinear_arith)
            requires
                peak > 0,
                capped <= peak,
        ;
    }
}

/// Along a crossover run the maximum drawdown never decreases and stays
/// within 100%: drawdown is monotone across the simulation.
pub proof fn lemma_sma_drawdown_monotone(
    s: Seq<i64>,
    sp: int,
    lp: int,
    ppm: int,
    slip: int,
    m: EngineModel,
    i: int,
)
    requires
        0 <= m.max_drawdown_bp <= 10000,
    ensures
        m.max_drawdown_bp <= sma_run_from(s, sp, lp, ppm, slip, m, i).max_drawdown_bp <= 10000,
    decreases sma_bar_count(s.len() as int, sp) - i,
{
    if 0 <= i && i < sma_bar_count(s.len() as int, sp) {
        let m2 = step_bar(
            m,
            s[sma_price_index(sp, i)] as int,
            sma_enter_signal(s, sp, lp, i),
            sma_exit_signal(s, sp, lp, i),
            ppm,
            slip,
        );
        lemma_step_drawdown(
            m,
            s[sma_price_index(sp, i)] as int,
            sma_enter_signal(s, sp, lp, i),
            sma_exit_signal(s, sp, lp, i),
            ppm,
            slip,
        );
        lemma_sma_drawdown_monotone(s, sp, lp, ppm, slip, m2, i + 1);
    }
}

/// The maximum drawdown a finished crossover run reports lies in [0, 100%].
pub proof fn lemma_sma_drawdown_in_range(s: Seq<i64>, sp: int, lp: int, ppm: int, slip: int)
    ensures
        0 <= sma_backtest_model(s, sp, lp, ppm, slip).max_drawdown_bp <= 10000,
{
    lemma_sma_drawdown_monotone(s, sp, lp, ppm, slip, init_model(), (lp - sp) + 1);
}

/// Along a threshold run the maximum drawdown never decreases and stays
/// within 100%.
pub proof fn lemma_rsi_drawdown_monotone(
    s: Seq<i64>,
    period: int,
    buy: int,
    sell: int,
    ppm: int,
    slip: int,
    m: EngineModel,
    i: int,
)
    requires
        0 <= m.max_drawdown_bp <= 10000,
    ensures
        m.max_drawdown_bp <= rsi_run_from(s, period, buy, sell, ppm, slip, m, i).max_drawdown_bp
            <= 10000,
    decreases s.len() - i,
{
    if 0 <= i && i < s.len() {
        let m2 = step_bar(
            m,
            s[i] as int,
            crate::engine::rsi_enter_signal(s, period, buy, i),
            crate::engine::rsi_exit_signal(s, period, sell, i),
            ppm,
            slip,
        );
        lemma_step_drawdown(
            m,
            s[i] as int,
            crate::engine::rsi_enter_signal(s, period, buy, i),
            crate::engine::rsi_exit_signal(s, period, sell, i),
            ppm,
            slip,
        );
        lemma_rsi_drawdown_monotone(s, period, buy, sell, ppm, slip, m2, i + 1);
    }
}

/// The maximum drawdown a finished threshold run reports lies in [0, 100%].
pub proof fn lemma_rsi_drawdown_in_range(s: Seq<i64>, period: int, buy: int, sell: int, ppm: int,
    slip: int)
    ensures
        0 <= crate::engine::rsi_backtest_model(s, period, buy, sell, ppm, slip).max_drawdown_bp
            <= 10000,
{
    lemma_rsi_drawdown_monotone(s, period, buy, sell, ppm, slip, init_model(), period + 1);
}

/// Over a series where prices never fall, the fast average never lies
/// strictly below the slow one: the top of the slow window averages at least
/// as much as the whole of it.
proof fn lemma_monotone_fast_not_below(s: Seq<i64>, sp: int, lp: int, i: int)
    requires
        1 <= sp < lp,
        lp - sp <= i,
        i + sp <= s.len(),
        forall|k: int, l: int| 0 <= k <= l < s.len() ==> s[k] <= s[l],
    ensures
        !sma_fast_below(s, sp, lp, i),
{
    let off = lp - sp;
    let v = s[i];
    lemma_window_sum_split(s, i - off, off, sp);
    assert forall|k: int| i - off <= k < i implies #[trigger] s[k] <= v by {
        assert(s[k] <= s[i]);
    }
    assert forall|k: int| i <= k < i + sp implies v <= #[trigger] s[k] by {
        assert(s[i] <= s[k]);
    }
    lemma_window_sum_upper(s, i - off, off, v as int);
    lemma_window_sum_lower(s, i, sp, v as int);
    let rest = window_sum(s, i - off, off);
    let fast = window_sum(s, i, sp);
    assert(fast * lp >= (rest + fast) * sp) by (nonlinear_arith)
        requires
            off == lp - sp,
            1 <= sp,
            1 <= off,
            rest <= off * v,
            fast >= sp * v,
    ;
}

/// The inductive core of the monotone-series law: starting from a state with
/// no realized trades, an untouched equity peak and no drawdown, a crossover
/// run over a never-falling series with zero costs closes no trade, enters at
/// most once, and records no drawdown.
proof fn lemma_monotone_run(s: Seq<i64>, sp: int, lp: int, m: EngineModel, i: int)
    requires
        1 <= sp < lp,
        (lp - sp) + 1 <= i,
        forall|k: int, l: int| 0 <= k <= l < s.len() ==> s[k] <= s[l],
        m.total_profit == 0,
        m.total_loss == 0,
        m.equity == START_EQUITY_SCALED,
        m.peak_equity == START_EQUITY_SCALED,
        m.max_drawdown_bp == 0,
        m.position is Flat ==> m.trades == 0,
        m.position is Long ==> m.trades == 1,
        m.position is Long && i < sma_bar_count(s.len() as int, sp) ==> m.entry_price <= s[
            sma_price_index(sp, i)
        ],
    ensures
        ({
            let f = sma_run_from(s, sp, lp, 0, 0, m, i);
            &&& f.total_profit == 0
            &&& f.total_loss == 0
            &&& f.trades <= 1
            &&& f.max_drawdown_bp == 0
            &&& (m.position is Long || (exists|b: int|
                i <= b < sma_bar_count(s.len() as int, sp) && sma_enter_signal(s, sp, lp, b)))
                ==> (f.position is Long && f.trades == 1)
        }),
    decreases sma_bar_count(s.len() as int, sp) - i,
{
    if 0 <= i && i < sma_bar_count(s.len() as int, sp) {
        let price = s[sma_price_index(sp, i)] as int;
        let enter = sma_enter_signal(s, sp, lp, i);
        let exit = sma_exit_signal(s, sp, lp, i);
        lemma_monotone_fast_not_below(s, sp, lp, i);
        assert(!exit);
        let d = dd_update(m, price);
        // Potential equity never falls short of the untouched peak.
        let unrealized = if m.position is Long {
            price - m.entry_price
        } else {
            0
        };
        assert(unrealized >= 0);
        assert(d.peak_equity == START_EQUITY_SCALED);
        assert((m.total_profit - m.total_loss + unrealized) * crate::limits::SCALE >= 0)
            by (nonlinear_arith)
            requires
                m.total_profit == 0,
                m.total_loss == 0,
                unrealized >= 0,
                crate::limits::SCALE >= 1,
        ;
        assert(0int / (START_EQUITY_SCALED as int) == 0) by (nonlinear_arith)
            requires
                START_EQUITY_SCALED >= 1,
        ;
        assert(d.max_drawdown_bp == 0);
        let m2 = trade_update(d, price, enter, exit, 0, 0);
        if d.position is Flat && enter {
            assert(m2.equity == d.equity - (price + 0) * 0);
            assert((price + 0) * 0 == 0) by (nonlinear_arith);
            assert(m2.entry_price == price);
        }
        if m2.position is Long && i + 1 < sma_bar_count(s.len() as int, sp) {
            assert(s[sma_price_index(sp, i)] <= s[sma_price_index(sp, i + 1)]);
        }
        lemma_monotone_run(s, sp, lp, m2, i + 1);
        if m2.position is Flat {
            // No entry happened at this bar, so any upward cross lies ahead.
            assert(!(m.position is Long) && !enter);
            if exists|b: int|
                i <= b < sma_bar_count(s.len() as int, sp) && sma_enter_signal(s, sp, lp, b) {
                let b = choose|b: int|
                    i <= b < sma_bar_count(s.len() as int, sp) && sma_enter_signal(s, sp, lp, b);
                assert(b != i);
                assert(i + 1 <= b < sma_bar_count(s.len() as int, sp) && sma_enter_signal(
                    s,
                    sp,
                    lp,
                    b,
                ));
            }
        }
    }
}

/// Over a never-falling price series with zero commission and slippage, the
/// crossover backtest closes no trade and opens at most one position that
/// never exits: the totals reflect only closed trades, so they are zero, the
/// profit factor is the flat 1/1, and no drawdown is recorded.
pub proof fn lemma_monotone_prices_one_entry(s: Seq<i64>, sp: int, lp: int)
    requires
        sma_params_ok(s.len() as int, sp, lp, 0, 0),
        forall|k: int, l: int| 0 <= k <= l < s.len() ==> s[k] <= s[l],
    ensures
        ({
            let f = sma_backtest_model(s, sp, lp, 0, 0);
            &&& f.total_profit == 0
            &&& f.total_loss == 0
            &&& f.trades <= 1
            &&& f.max_drawdown_bp == 0
            &&& profit_factor_num_of(f) == 1
            &&& profit_factor_den_of(f) == 1
            &&& (exists|b: int|
                (lp - sp) + 1 <= b < sma_bar_count(s.len() as int, sp) && sma_enter_signal(
                    s,
                    sp,
                    lp,
                    b,
                )) ==> (f.position is Long && f.trades == 1)
        }),
{
    lemma_monotone_run(s, sp, lp, init_model(), (lp - sp) + 1);
}

/// Window sums commute with a positive affine change of price level.
proof fn lemma_affine_window_sum(s: Seq<i64>, s2: Seq<i64>, mul: int, shift: int, start: int,
    len: int)
    requires
        0 <= len,
        0 <= start,
        start + len <= s.len(),
        s2.len() == s.len(),
        forall|k: int| 0 <= k < s.len() ==> s2[k] == mul * s[k] + shift,
    ensures
        window_sum(s2, start, len) == mul * window_sum(s, start, len) + len * shift,
    decreases len,
{
    if len > 0 {
        lemma_affine_window_sum(s, s2, mul, shift, start + 1, len - 1);
        assert(mul * (s[start] + window_sum(s, start + 1, len - 1)) + len * shift == (mul * s[start]
            + shift) + (mul * window_sum(s, start + 1, len - 1) + (len - 1) * shift))
            by (nonlinear_arith);
    } else {
        assert(mul * 0 + 0 * shift == 0) by (nonlinear_arith);
    }
}

/// Crossover signals are invariant under a positive affine change of price
/// level: a shifted and scaled series crosses exactly where the plain one does.
proof fn lemma_affine_signals(s: Seq<i64>, s2: Seq<i64>, mul: int, shift: int, sp: int, lp: int,
    i: int)
    requires
        1 <= mul,
        1 <= sp < lp,
        lp - sp <= i - 1,
        i + sp <= s.len(),
        s2.len() == s.len(),
        forall|k: int| 0 <= k < s.len() ==> s2[k] == mul * s[k] + shift,
    ensures
        sma_fast_above(s2, sp, lp, i) == sma_fast_above(s, sp, lp, i),
        sma_fast_below(s2, sp, lp, i) == sma_fast_below(s, sp, lp, i),
        sma_enter_signal(s2, sp, lp, i) == sma_enter_signal(s, sp, lp, i),
        sma_exit_signal(s2, sp, lp, i) == sma_exit_signal(s, sp, lp, i),
{
    let off = lp - sp;
    assert forall|j: int| off <= j <= i implies {
        &&& sma_fast_above(s2, sp, lp, j) == sma_fast_above(s, sp, lp, j)
        &&& sma_fast_below(s2, sp, lp, j) == sma_fast_below(s, sp, lp, j)
    } by {
        lemma_affine_window_sum(s, s2, mul, shift, j, sp);
        lemma_affine_window_sum(s, s2, mul, shift, j - off, lp);
        let fast = window_sum(s, j, sp);
        let slow = window_sum(s, j - off, lp);
        assert((mul * fast + sp * shift) * lp > (mul * slow + lp * shift) * sp <==> fast * lp > slow
            * sp) by (nonlinear_arith)
            requires
                1 <= mul,
        ;
        assert((mul * fast + sp * shift) * lp < (mul * slow + lp * shift) * sp <==> fast * lp < slow
            * sp) by (nonlinear_arith)
            requires
                1 <= mul,
        ;
    }
}

/// The inductive core of the affine-invariance law: with zero costs, runs
/// over a series and its positive affine image stay in lock-step, with the
/// trade-visible state of the image scaled by the factor.
proof fn lemma_affine_run(
    s: Seq<i64>,
    s2: Seq<i64>,
    mul: int,
    shift: int,
    sp: int,
    lp: int,
    m: EngineModel,
    m2: EngineModel,
    i: int,
)
    requires
        1 <= mul,
        1 <= sp < lp,
        (lp - sp) + 1 <= i,
        s2.len() == s.len(),
        forall|k: int| 0 <= k < s.len() ==> s2[k] == mul * s[k] + shift,
        m2.position == m.position,
        m2.trades == m.trades,
        m2.total_profit == mul * m.total_profit,
        m2.total_loss == mul * m.total_loss,
        m.position is Long ==> m2.entry_price == mul * m.entry_price + shift,
    ensures
        ({
            let f = sma_run_from(s, sp, lp, 0, 0, m, i);
            let f2 = sma_run_from(s2, sp, lp, 0, 0, m2, i);
            &&& f2.position == f.position
            &&& f2.trades == f.trades
            &&& f2.total_profit == mul * f.total_profit
            &&& f2.total_loss == mul * f.total_loss
        }),
    decreases sma_bar_count(s.len() as int, sp) - i,
{
    if 0 <= i && i < sma_bar_count(s.len() as int, sp) {
        lemma_affine_signals(s, s2, mul, shift, sp, lp, i);
        let price = s[sma_price_index(sp, i)] as int;
        let price2 = s2[sma_price_index(sp, i)] as int;
        let enter = sma_enter_signal(s, sp, lp, i);
        let exit = sma_exit_signal(s, sp, lp, i);
        let d = dd_update(m, price);
        let d2 = dd_update(m2, price2);
        let n = trade_update(d, price, enter, exit, 0, 0);
        let n2 = trade_update(d2, price2, enter, exit, 0, 0);
        if d.position is Flat && enter {
            assert(n2.entry_price == mul * n.entry_price + shift);
        } else if d.position is Long && exit {
            let gross = (price - 0) - d.entry_price;
            let gross2 = (price2 - 0) - d2.entry_price;
            assert(gross2 == mul * gross) by (nonlinear_arith)
                requires
                    price2 == mul * price + shift,
                    d2.entry_price == mul * d.entry_price + shift,
                    gross == price - 0 - d.entry_price,
                    gross2 == price2 - 0 - d2.entry_price,
            ;
            assert(gross2 > 0 <==> gross > 0) by (nonlinear_arith)
                requires
                    gross2 == mul * gross,
                    mul >= 1,
            ;
            if gross > 0 {
                assert(n2.total_profit == mul * d.total_profit + mul * gross);
                assert(mul * (d.total_profit + gross) == mul * d.total_profit + mul * gross)
                    by (nonlinear_arith);
            } else {
                assert(mul * (d.total_loss - gross) == mul * d.total_loss - mul * gross)
                    by (nonlinear_arith);
            }
        }
        lemma_affine_run(s, s2, mul, shift, sp, lp, n, n2, i + 1);
    }
}

/// Profit factor is invariant under a positive affine change of price level
/// with zero commission and slippage: scaling every price by a positive
/// factor and shifting it by a constant leaves crossover timing, the trade
/// count, and the profit factor (as a fraction) unchanged, while the gross
/// totals scale by the factor.
pub proof fn lemma_profit_factor_affine_invariant(
    s: Seq<i64>,
    s2: Seq<i64>,
    mul: int,
    shift: int,
    sp: int,
    lp: int,
)
    requires
        1 <= mul,
        sma_params_ok(s.len() as int, sp, lp, 0, 0),
        s2.len() == s.len(),
        forall|k: int| 0 <= k < s.len() ==> s2[k] == mul * s[k] + shift,
    ensures
        ({
            let f = sma_backtest_model(s, sp, lp, 0, 0);
            let f2 = sma_backtest_model(s2, sp, lp, 0, 0);
            &&& f2.trades == f.trades
            &&& f2.total_profit == mul * f.total_profit
            &&& f2.total_loss == mul * f.total_loss
            &&& profit_factor_num_of(f2) * profit_factor_den_of(f) == profit_factor_num_of(f)
                * profit_factor_den_of(f2)
        }),
{
    assert(mul * 0 == 0) by (nonlinear_arith);
    lemma_affine_run(s, s2, mul, shift, sp, lp, init_model(), init_model(), (lp - sp) + 1);
    let f = sma_backtest_model(s, sp, lp, 0, 0);
    let f2 = sma_backtest_model(s2, sp, lp, 0, 0);
    assert(f2.total_loss == 0 <==> f.total_loss == 0) by (nonlinear_arith)
        requires
            f2.total_loss == mul * f.total_loss,
            mul >= 1,
            f.total_loss >= 0 || f.total_loss < 0,
    ;
    assert(f2.total_profit > 0 <==> f.total_profit > 0) by (nonlinear_arith)
        requires
            f2.total_profit == mul * f.total_profit,
            mul >= 1,
    ;
    if f.total_loss != 0 {
        assert((mul * f.total_profit) * f.total_loss == f.total_profit * (mul * f.total_loss))
            by (nonlinear_arith);
    }
}

} // verus!
