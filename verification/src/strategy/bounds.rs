//! Ranges of values within which every computation of the strategy stays clear of
//! overflow, and the checks that find inputs inside them.
use vstd::prelude::*;
use crate::config::StrategySection;
use crate::decimal::{
    abs, lemma_pow10_small, pow10, safe_magnitude, Dec, MANTISSA_LIMIT,
};
use crate::domain::{CurrentQuote, InvestorFlowDaily, OhlcvDaily, TradeCandidate};
use super::candidate_builder::{fin_ref, stock_computable, StockInputs};
use super::filters::filters_computable;
use super::monitor::signal_computable;
use super::risk::{quote_computable, spread_computable, spread_reportable};
use super::scoring::{
    amount_sum, amount_sums_fit, change_computable, close_budget, fits_i64, foreign_net_sum,
    foreign_sums_fit, inst_net_sum, inst_sums_fit, last_rows, range_numerator, rows_wf,
    wick_computable,
};
use crate::clock::TimeOfDay;

verus! {

/// The largest magnitude of a mantissa, amount or volume the checks let through: 10^15.
pub const VALUE_LIMIT: i64 = 1_000_000_000_000_000i64;

/// The most decimal places a price may carry.
pub const SCALE_LIMIT: u32 = 4u32;

/// The most rows of history a stock may come with.
pub const ROW_LIMIT: usize = 1000usize;

/// A decimal of modest size: at most 10^15 in its mantissa and four places.
pub open spec fn modest(d: Dec) -> bool {
    &&& d.wf()
    &&& -VALUE_LIMIT <= d.m() <= VALUE_LIMIT
    &&& d.scale <= SCALE_LIMIT
}

pub open spec fn modest_int(x: int) -> bool {
    -VALUE_LIMIT <= x <= VALUE_LIMIT
}

pub open spec fn modest_opt(d: Option<Dec>) -> bool {
    d matches Some(v) ==> modest(v)
}

pub open spec fn modest_row(r: OhlcvDaily) -> bool {
    &&& modest(r.open_price)
    &&& modest(r.high_price)
    &&& modest(r.low_price)
    &&& modest(r.close_price)
    &&& modest_int(r.volume as int)
    &&& modest_int(r.trade_amount as int)
}

pub open spec fn modest_flow(f: InvestorFlowDaily) -> bool {
    modest_int(f.institution_net_buy_amt as int) && modest_int(f.foreign_net_buy_amt as int)
}

/// A stock's inputs are of modest size and the strategy's rates are decimals.
pub open spec fn modest_inputs(input: StockInputs, strategy: StrategySection) -> bool {
    &&& strategy.wf()
    &&& input.flows@.len() <= ROW_LIMIT
    &&& input.ohlcv@.len() <= ROW_LIMIT
    &&& forall|i: int| 0 <= i < input.flows@.len() ==> modest_flow(#[trigger] input.flows@[i])
    &&& forall|i: int| 0 <= i < input.ohlcv@.len() ==> modest_row(#[trigger] input.ohlcv@[i])
    &&& input.financial matches Some(f) ==> f.wf()
}

pub open spec fn modest_candidate(c: TradeCandidate) -> bool {
    &&& modest(c.supply_score)
    &&& modest(c.liquidity_score)
    &&& modest(c.trend_score)
    &&& modest(c.risk_score)
    &&& modest(c.final_score)
    &&& modest(c.prev_close)
    &&& modest(c.prev_high)
    &&& modest(c.prev_low)
    &&& modest_opt(c.ma5)
    &&& modest_opt(c.ma20)
    &&& modest_opt(c.breakout_price)
    &&& modest_opt(c.pullback_price)
    &&& modest_opt(c.stop_loss_price)
    &&& modest_opt(c.target_price)
}

pub open spec fn modest_quote(q: CurrentQuote) -> bool {
    &&& modest(q.current_price)
    &&& modest(q.open_price)
    &&& modest(q.high_price)
    &&& modest(q.low_price)
    &&& modest(q.prev_close)
    &&& modest(q.expected_trade_amount_ratio)
    &&& modest(q.execution_strength)
    &&& modest(q.bid_price)
    &&& modest(q.ask_price)
    &&& modest_opt(q.vwap)
}

proof fn lemma_pow10_at_most_4(n: nat)
    requires
        n <= 4,
    ensures
        1 <= pow10(n) <= 10000,
{
    lemma_pow10_small();
}

proof fn lemma_modest_mag(d: Dec)
    requires
        modest(d),
    ensures
        0 <= d.mag() <= VALUE_LIMIT,
        1 <= pow10(d.s()) <= 10000,
{
    lemma_pow10_at_most_4(d.s());
    let p = pow10(d.s());
    let x = abs(d.m());
    assert(0 <= x <= VALUE_LIMIT);
    if x == 0 {
        assert((x + p - 1) / p == 0) by (nonlinear_arith)
            requires
                x == 0,
                p >= 1,
        ;
    } else {
        assert((x + p - 1) / p <= x) by (nonlinear_arith)
            requires
                x >= 1,
                p >= 1,
        {
            assert(x + p - 1 <= x * p);
            vstd::arithmetic::div_mod::lemma_div_is_ordered(x + p - 1, x * p, p);
            vstd::arithmetic::div_mod::lemma_div_by_multiple(x, p);
        }
        assert((x + p - 1) / p >= 0) by (nonlinear_arith)
            requires
                x >= 1,
                p >= 1,
        ;
    }
}

proof fn lemma_modest_change(start: Dec, end: Dec)
    requires
        modest(start),
        modest(end),
    ensures
        change_computable(start, end),
{
    lemma_modest_mag(start);
    lemma_modest_mag(end);
    let k = end.mag() + start.mag() + 1;
    let p = pow10(start.s());
    if start.mantissa != 0 {
        assert(k * p <= (safe_magnitude() - 1) * abs(start.m())) by (nonlinear_arith)
            requires
                0 <= k <= 2 * VALUE_LIMIT + 1,
                1 <= p <= 10000,
                abs(start.m()) >= 1,
                safe_magnitude() == 39614081257132168796771975168,
        ;
    }
}

proof fn lemma_flow_sums(flows: Seq<InvestorFlowDaily>, k: int)
    requires
        0 <= k <= flows.len(),
        forall|i: int| 0 <= i < flows.len() ==> modest_flow(#[trigger] flows[i]),
    ensures
        abs(inst_net_sum(flows.take(k))) <= k * VALUE_LIMIT,
        abs(foreign_net_sum(flows.take(k))) <= k * VALUE_LIMIT,
    decreases k,
{
    if k > 0 {
        lemma_flow_sums(flows, k - 1);
        assert(flows.take(k).drop_last() =~= flows.take(k - 1));
        assert(flows.take(k).last() == flows[k - 1]);
        assert(modest_flow(flows[k - 1]));
    } else {
        assert(flows.take(0) =~= Seq::<InvestorFlowDaily>::empty());
    }
}

proof fn lemma_amount_sums(rows: Seq<OhlcvDaily>, k: int)
    requires
        0 <= k <= rows.len(),
        forall|i: int| 0 <= i < rows.len() ==> modest_row(#[trigger] rows[i]),
    ensures
        abs(amount_sum(rows.take(k))) <= k * VALUE_LIMIT,
    decreases k,
{
    if k > 0 {
        lemma_amount_sums(rows, k - 1);
        assert(rows.take(k).drop_last() =~= rows.take(k - 1));
        assert(rows.take(k).last() == rows[k - 1]);
        assert(modest_row(rows[k - 1]));
    } else {
        assert(rows.take(0) =~= Seq::<OhlcvDaily>::empty());
    }
}

proof fn lemma_close_budget(rows: Seq<OhlcvDaily>)
    requires
        forall|i: int| 0 <= i < rows.len() ==> modest_row(#[trigger] rows[i]),
    ensures
        0 <= close_budget(rows) <= rows.len() * (VALUE_LIMIT + 1),
    decreases rows.len(),
{
    if rows.len() > 0 {
        let init = rows.drop_last();
        assert forall|i: int| 0 <= i < init.len() implies modest_row(#[trigger] init[i]) by {
            assert(init[i] == rows[i]);
        }
        lemma_close_budget(init);
        assert(modest_row(rows[rows.len() - 1]));
        lemma_modest_mag(rows.last().close_price);
    }
}

proof fn lemma_last_rows_modest(rows: Seq<OhlcvDaily>, w: int)
    requires
        0 <= w <= rows.len(),
        forall|i: int| 0 <= i < rows.len() ==> modest_row(#[trigger] rows[i]),
    ensures
        forall|i: int| 0 <= i < w ==> modest_row(#[trigger] last_rows(rows, w)[i]),
        last_rows(rows, w).len() == w,
{
    assert forall|i: int| 0 <= i < w implies modest_row(#[trigger] last_rows(rows, w)[i]) by {
        assert(last_rows(rows, w)[i] == rows[rows.len() - w + i]);
    }
}

proof fn lemma_amount_window(rows: Seq<OhlcvDaily>, w: int)
    requires
        0 <= w <= 20,
        forall|i: int| 0 <= i < rows.len() ==> modest_row(#[trigger] rows[i]),
    ensures
        amount_sums_fit(rows, w),
{
    if rows.len() >= w {
        lemma_last_rows_modest(rows, w);
        assert forall|k: int| 0 <= k <= w implies fits_i64(
            #[trigger] amount_sum(last_rows(rows, w).take(k)),
        ) by {
            lemma_amount_sums(last_rows(rows, w), k);
        }
    }
}

proof fn lemma_wick(row: OhlcvDaily)
    requires
        modest_row(row),
    ensures
        wick_computable(row),
{
    let h = row.high_price;
    let l = row.low_price;
    let c = row.close_price;
    lemma_modest_mag(h);
    lemma_modest_mag(l);
    lemma_modest_mag(c);
    let s: nat = if h.scale >= l.scale {
        h.s()
    } else {
        l.s()
    };
    lemma_pow10_at_most_4((s - h.s()) as nat);
    lemma_pow10_at_most_4((s - l.s()) as nat);
    let ph = pow10((s - h.s()) as nat);
    let pl = pow10((s - l.s()) as nat);
    assert(abs(h.m() * ph - l.m() * pl) < MANTISSA_LIMIT) by (nonlinear_arith)
        requires
            -VALUE_LIMIT <= h.m() <= VALUE_LIMIT,
            -VALUE_LIMIT <= l.m() <= VALUE_LIMIT,
            1 <= ph <= 10000,
            1 <= pl <= 10000,
            MANTISSA_LIMIT == 79228162514264337593543950336,
    ;
    let k = h.mag() + c.mag() + 1;
    let a = pow10(h.s());
    let b = pow10(l.s());
    if range_numerator(row) > 0 {
        assert(k * a * b <= (safe_magnitude() - 1) * range_numerator(row)) by (nonlinear_arith)
            requires
                0 <= k <= 2 * VALUE_LIMIT + 1,
                1 <= a <= 10000,
                1 <= b <= 10000,
                range_numerator(row) >= 1,
                safe_magnitude() == 39614081257132168796771975168,
        ;
    }
}

/// Inputs of modest size can be screened and scored without overflow.
pub proof fn lemma_modest_inputs_computable(input: StockInputs, strategy: StrategySection)
    requires
        modest_inputs(input, strategy),
    ensures
        stock_computable(input.flows@, input.ohlcv@, fin_ref(&input.financial), strategy),
{
    let flows = input.flows@;
    let rows = input.ohlcv@;
    assert forall|k: int| 0 <= k <= flows.len() implies fits_i64(
        #[trigger] inst_net_sum(flows.take(k)),
    ) by {
        lemma_flow_sums(flows, k);
    }
    assert forall|k: int| 0 <= k <= flows.len() implies fits_i64(
        #[trigger] foreign_net_sum(flows.take(k)),
    ) by {
        lemma_flow_sums(flows, k);
    }
    lemma_flow_sums(flows, flows.len() as int);
    assert(flows.take(flows.len() as int) =~= flows);
    assert(inst_sums_fit(flows));
    assert(foreign_sums_fit(flows));
    lemma_amount_window(rows, 20);
    lemma_amount_window(rows, 5);
    if rows.len() >= 5 {
        assert(modest_row(rows[rows.len() - 5]));
        assert(modest_row(rows[rows.len() - 1]));
        lemma_modest_change(rows[rows.len() - 5].close_price, rows.last().close_price);
    }
    if rows.len() >= 2 {
        assert(modest_row(rows[rows.len() - 2]));
        assert(modest_row(rows[rows.len() - 1]));
        lemma_modest_change(rows[rows.len() - 2].close_price, rows.last().close_price);
    }
    assert(filters_computable(flows, rows, strategy));
    assert(rows_wf(rows));
    if rows.len() >= 20 {
        lemma_last_rows_modest(rows, 20);
        lemma_last_rows_modest(rows, 5);
        lemma_close_budget(last_rows(rows, 20));
        lemma_close_budget(last_rows(rows, 5));
    }
    assert forall|i: int| 0 <= i < rows.len() implies (#[trigger] rows[i]).high_price.mag() * 2
        <= safe_magnitude() && rows[i].close_price.mag() * 2 <= safe_magnitude() by {
        assert(modest_row(rows[i]));
        lemma_modest_mag(rows[i].high_price);
        lemma_modest_mag(rows[i].close_price);
    }
    if rows.len() >= 1 {
        assert(modest_row(rows[rows.len() - 1]));
        lemma_wick(rows.last());
    }
    if rows.len() >= 2 {
        assert(modest_row(rows[rows.len() - 2]));
    }
}

/// Candidates and quotes of modest size, with a previous close that is not zero, can be
/// checked against every entry rule and the risk gate without overflow.
pub proof fn lemma_modest_signal_computable(c: TradeCandidate, q: CurrentQuote, now: TimeOfDay)
    requires
        modest_candidate(c),
        modest_quote(q),
        c.prev_close.mantissa != 0,
    ensures
        signal_computable(c, q, now),
        quote_computable(q),
        c.wf(),
        q.wf(),
{
    lemma_modest_change(c.prev_close, q.open_price);
    lemma_modest_change(c.prev_close, q.current_price);
    lemma_modest_change(q.prev_close, q.current_price);
    lemma_modest_mag(q.ask_price);
    lemma_modest_mag(q.bid_price);
    lemma_modest_mag(q.current_price);
    lemma_modest_mag(c.prev_high);
    if c.ma5 is Some {
        lemma_modest_mag(c.ma5->0);
    }
    let k = q.ask_price.mag() + q.bid_price.mag() + 1;
    let p = pow10(q.current_price.s());
    if q.current_price.mantissa != 0 {
        assert(k * p <= (safe_magnitude() - 1) * abs(q.current_price.m())) by (nonlinear_arith)
            requires
                0 <= k <= 2 * VALUE_LIMIT + 1,
                1 <= p <= 10000,
                abs(q.current_price.m()) >= 1,
                safe_magnitude() == 39614081257132168796771975168,
        ;
        assert(k * p <= 0x10000000000000000000000 * abs(q.current_price.m())) by (nonlinear_arith)
            requires
                0 <= k <= 2 * VALUE_LIMIT + 1,
                1 <= p <= 10000,
                abs(q.current_price.m()) >= 1,
        ;
    }
    assert(spread_computable(q));
    assert(spread_reportable(q));
}

/// Whether a decimal is of modest size.
pub fn dec_in_range(d: Dec) -> (r: bool)
    ensures
        r == modest(d),
{
    -(VALUE_LIMIT as i128) <= d.mantissa && d.mantissa <= VALUE_LIMIT as i128 && d.scale
        <= SCALE_LIMIT && (d.mantissa >= 0 || d.negative) && (d.mantissa <= 0 || !d.negative)
}

fn opt_in_range(d: Option<Dec>) -> (r: bool)
    ensures
        r == modest_opt(d),
{
    match d {
        Some(v) => dec_in_range(v),
        None => true,
    }
}

fn int_in_range(x: i64) -> (r: bool)
    ensures
        r == modest_int(x as int),
{
    -VALUE_LIMIT <= x && x <= VALUE_LIMIT
}

/// Whether a stock's inputs are of modest size, so that screening and scoring them cannot
/// overflow.
pub fn inputs_in_range(input: &StockInputs, strategy: &StrategySection) -> (r: bool)
    ensures
        r == modest_inputs(*input, *strategy),
        r ==> stock_computable(input.flows@, input.ohlcv@, fin_ref(&input.financial), *strategy),
{
    let rates_ok = strategy.max_rise_rate_5d.is_wf() && strategy.max_prev_day_rise_rate.is_wf();
    if !rates_ok || input.flows.len() > ROW_LIMIT || input.ohlcv.len() > ROW_LIMIT {
        return false;
    }
    let mut i: usize = 0;
    while i < input.flows.len()
        invariant
            i <= input.flows@.len(),
            forall|j: int| 0 <= j < i ==> modest_flow(#[trigger] input.flows@[j]),
        decreases input.flows@.len() - i,
    {
        let f = &input.flows[i];
        if !(int_in_range(f.institution_net_buy_amt) && int_in_range(f.foreign_net_buy_amt)) {
            return false;
        }
        i = i + 1;
    }
    let mut i: usize = 0;
    while i < input.ohlcv.len()
        invariant
            i <= input.ohlcv@.len(),
            forall|j: int| 0 <= j < i ==> modest_row(#[trigger] input.ohlcv@[j]),
        decreases input.ohlcv@.len() - i,
    {
        let row = &input.ohlcv[i];
        if !(dec_in_range(row.open_price) && dec_in_range(row.high_price) && dec_in_range(
            row.low_price,
        ) && dec_in_range(row.close_price) && int_in_range(row.volume) && int_in_range(
            row.trade_amount,
        )) {
            return false;
        }
        i = i + 1;
    }
    let financial_ok = match &input.financial {
        Some(f) => opt_in_range_wf(f.debt_ratio),
        None => true,
    };
    if !financial_ok {
        return false;
    }
    proof {
        lemma_modest_inputs_computable(*input, *strategy);
    }
    true
}

fn opt_in_range_wf(d: Option<Dec>) -> (r: bool)
    ensures
        r == (d matches Some(v) ==> v.wf()),
{
    match d {
        Some(v) => v.is_wf(),
        None => true,
    }
}

/// Whether a candidate and its quote are of modest size, with a previous close that is
/// not zero, so that the entry rules and the risk gate cannot overflow.
pub fn signal_inputs_in_range(candidate: &TradeCandidate, quote: &CurrentQuote) -> (r: bool)
    ensures
        r == (modest_candidate(*candidate) && modest_quote(*quote) && candidate.prev_close.mantissa
            != 0),
        r ==> forall|now: TimeOfDay| #[trigger] signal_computable(*candidate, *quote, now),
        r ==> quote_computable(*quote) && candidate.wf() && quote.wf(),
{
    let c = candidate;
    let q = quote;
    let candidate_ok = dec_in_range(c.supply_score) && dec_in_range(c.liquidity_score)
        && dec_in_range(c.trend_score) && dec_in_range(c.risk_score) && dec_in_range(c.final_score)
        && dec_in_range(c.prev_close) && dec_in_range(c.prev_high) && dec_in_range(c.prev_low)
        && opt_in_range(c.ma5) && opt_in_range(c.ma20) && opt_in_range(c.breakout_price)
        && opt_in_range(c.pullback_price) && opt_in_range(c.stop_loss_price) && opt_in_range(
        c.target_price,
    );
    let quote_ok = dec_in_range(q.current_price) && dec_in_range(q.open_price) && dec_in_range(
        q.high_price,
    ) && dec_in_range(q.low_price) && dec_in_range(q.prev_close) && dec_in_range(
        q.expected_trade_amount_ratio,
    ) && dec_in_range(q.execution_strength) && dec_in_range(q.bid_price) && dec_in_range(
        q.ask_price,
    ) && opt_in_range(q.vwap);
    let r = candidate_ok && quote_ok && c.prev_close.mantissa != 0;
    proof {
        if r {
            assert forall|now: TimeOfDay| #[trigger] signal_computable(*candidate, *quote, now) by {
                lemma_modest_signal_computable(*candidate, *quote, now);
            }
            lemma_modest_signal_computable(*candidate, *quote, TimeOfDay { secs: 0, nanos: 0 });
        }
    }
    r
}

} // verus!
