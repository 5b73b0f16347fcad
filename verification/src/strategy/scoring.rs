//! Supply, liquidity, trend and risk scores of a stock, each on a scale of 0 to 100.
use vstd::prelude::*;
use crate::decimal::{
    Dec, dec_of, fits_ratio, int_dec, lit_dec, lemma_abs_le_mag, lemma_pow10_add, lemma_pow10_small, lemma_pow10_positive, lemma_quotient_bound,
    pow10, rust_decimal_add, rust_decimal_div, rust_decimal_mul, rust_decimal_sub, safe_magnitude,
    MANTISSA_LIMIT, MAX_SCALE, abs,
};
use crate::domain::{FinancialRatio, InvestorFlowDaily, OhlcvDaily};

verus! {

// ---------------------------------------------------------------------------
// Investor flows
// ---------------------------------------------------------------------------

/// The net buying of the flows added up: institutions' when `institution`, else foreigners'.
pub open spec fn flow_total(flows: Seq<InvestorFlowDaily>, institution: bool) -> int
    decreases flows.len(),
{
    if flows.len() == 0 {
        0
    } else {
        (if institution {
            flows[0].institution_net_buy_amt as int
        } else {
            flows[0].foreign_net_buy_amt as int
        }) + flow_total(flows.drop_first(), institution)
    }
}

/// The days of the flows with positive net buying: institutions' when `institution`, else
/// foreigners'.
pub open spec fn buying_days(flows: Seq<InvestorFlowDaily>, institution: bool) -> int {
    flows.filter(
        |f: InvestorFlowDaily|
            if institution {
                f.institution_net_buy_amt > 0
            } else {
                f.foreign_net_buy_amt > 0
            },
    ).len() as int
}

/// The running sums and day counts of the flows are their totals and buying days.
pub proof fn lemma_flow_totals(flows: Seq<InvestorFlowDaily>)
    ensures
        inst_net_sum(flows) == flow_total(flows, true),
        foreign_net_sum(flows) == flow_total(flows, false),
        inst_buy_days(flows) as int == buying_days(flows, true),
        foreign_buy_days(flows) as int == buying_days(flows, false),
    decreases flows.len(),
{
    if flows.len() > 0 {
        lemma_flow_totals(flows.drop_last());
        lemma_flow_total_last(flows, true);
        lemma_flow_total_last(flows, false);
        reveal(Seq::filter);
    }
}

proof fn lemma_flow_total_last(flows: Seq<InvestorFlowDaily>, institution: bool)
    requires
        flows.len() > 0,
    ensures
        flow_total(flows, institution) == flow_total(flows.drop_last(), institution) + (
        if institution {
            flows.last().institution_net_buy_amt as int
        } else {
            flows.last().foreign_net_buy_amt as int
        }),
    decreases flows.len(),
{
    if flows.len() > 1 {
        lemma_flow_total_last(flows.drop_first(), institution);
        assert(flows.drop_first().drop_last() =~= flows.drop_last().drop_first());
        assert(flows.drop_last()[0] == flows[0]);
        assert(flows.drop_first().last() == flows.last());
        assert(flow_total(flows.drop_last(), institution) == (if institution {
            flows[0].institution_net_buy_amt as int
        } else {
            flows[0].foreign_net_buy_amt as int
        }) + flow_total(flows.drop_last().drop_first(), institution));
    } else {
        assert(flows.drop_first().len() == 0);
        assert(flows.drop_last().len() == 0);
        assert(flows.last() == flows[0]);
        assert(flow_total(flows.drop_first(), institution) == 0);
        assert(flow_total(flows.drop_last(), institution) == 0);
    }
}

/// Days on which institutions bought more than they sold.
pub open spec fn inst_buy_days(flows: Seq<InvestorFlowDaily>) -> nat
    decreases flows.len(),
{
    if flows.len() == 0 {
        0
    } else {
        inst_buy_days(flows.drop_last()) + if flows.last().institution_net_buy_amt > 0 {
            1nat
        } else {
            0nat
        }
    }
}

/// Days on which foreigners bought more than they sold.
pub open spec fn foreign_buy_days(flows: Seq<InvestorFlowDaily>) -> nat
    decreases flows.len(),
{
    if flows.len() == 0 {
        0
    } else {
        foreign_buy_days(flows.drop_last()) + if flows.last().foreign_net_buy_amt > 0 {
            1nat
        } else {
            0nat
        }
    }
}

/// Total institutional net buying.
pub open spec fn inst_net_sum(flows: Seq<InvestorFlowDaily>) -> int
    decreases flows.len(),
{
    if flows.len() == 0 {
        0
    } else {
        inst_net_sum(flows.drop_last()) + flows.last().institution_net_buy_amt
    }
}

/// Total foreign net buying.
pub open spec fn foreign_net_sum(flows: Seq<InvestorFlowDaily>) -> int
    decreases flows.len(),
{
    if flows.len() == 0 {
        0
    } else {
        foreign_net_sum(flows.drop_last()) + flows.last().foreign_net_buy_amt
    }
}

pub open spec fn fits_i64(x: int) -> bool {
    i64::MIN <= x <= i64::MAX
}

/// Every running total of institutional net buying fits in an `i64`, as the summing
/// iterator needs.
pub open spec fn inst_sums_fit(flows: Seq<InvestorFlowDaily>) -> bool {
    forall|k: int| 0 <= k <= flows.len() ==> fits_i64(#[trigger] inst_net_sum(flows.take(k)))
}

/// Every running total of foreign net buying fits in an `i64`.
pub open spec fn foreign_sums_fit(flows: Seq<InvestorFlowDaily>) -> bool {
    forall|k: int| 0 <= k <= flows.len() ==> fits_i64(#[trigger] foreign_net_sum(flows.take(k)))
}

/// The number of days with institutional net buying (as an `i32`).
pub fn count_institution_buy_days(flows: &[InvestorFlowDaily]) -> (r: i32)
    ensures
        r == inst_buy_days(flows@) as i32,
{
    let mut count: usize = 0;
    let mut i: usize = 0;
    while i < flows.len()
        invariant
            i <= flows@.len(),
            count == inst_buy_days(flows@.take(i as int)),
            count <= i,
        decreases flows.len() - i,
    {
        assert(flows@.take(i + 1).drop_last() =~= flows@.take(i as int));
        if flows[i].institution_net_buy_amt > 0 {
            count = count + 1;
        }
        i = i + 1;
    }
    assert(flows@.take(flows@.len() as int) =~= flows@);
    count as i32
}

/// The number of days with foreign net buying.
pub fn count_foreign_buy_days(flows: &[InvestorFlowDaily]) -> (r: i32)
    ensures
        r == foreign_buy_days(flows@) as i32,
{
    let mut count: usize = 0;
    let mut i: usize = 0;
    while i < flows.len()
        invariant
            i <= flows@.len(),
            count == foreign_buy_days(flows@.take(i as int)),
            count <= i,
        decreases flows.len() - i,
    {
        assert(flows@.take(i + 1).drop_last() =~= flows@.take(i as int));
        if flows[i].foreign_net_buy_amt > 0 {
            count = count + 1;
        }
        i = i + 1;
    }
    assert(flows@.take(flows@.len() as int) =~= flows@);
    count as i32
}

/// Total institutional net buying.
pub fn sum_institution_net_buy(flows: &[InvestorFlowDaily]) -> (r: i64)
    requires
        inst_sums_fit(flows@),
    ensures
        r == inst_net_sum(flows@),
{
    let mut total: i64 = 0;
    let mut i: usize = 0;
    while i < flows.len()
        invariant
            i <= flows@.len(),
            inst_sums_fit(flows@),
            total == inst_net_sum(flows@.take(i as int)),
        decreases flows.len() - i,
    {
        assert(flows@.take(i + 1).drop_last() =~= flows@.take(i as int));
        assert(fits_i64(inst_net_sum(flows@.take(i + 1))));
        total = total + flows[i].institution_net_buy_amt;
        i = i + 1;
    }
    assert(flows@.take(flows@.len() as int) =~= flows@);
    total
}

/// Total foreign net buying.
pub fn sum_foreign_net_buy(flows: &[InvestorFlowDaily]) -> (r: i64)
    requires
        foreign_sums_fit(flows@),
    ensures
        r == foreign_net_sum(flows@),
{
    let mut total: i64 = 0;
    let mut i: usize = 0;
    while i < flows.len()
        invariant
            i <= flows@.len(),
            foreign_sums_fit(flows@),
            total == foreign_net_sum(flows@.take(i as int)),
        decreases flows.len() - i,
    {
        assert(flows@.take(i + 1).drop_last() =~= flows@.take(i as int));
        assert(fits_i64(foreign_net_sum(flows@.take(i + 1))));
        total = total + flows[i].foreign_net_buy_amt;
        i = i + 1;
    }
    assert(flows@.take(flows@.len() as int) =~= flows@);
    total
}

// ---------------------------------------------------------------------------
// Candles
// ---------------------------------------------------------------------------

/// The last `window` rows.
pub open spec fn last_rows(rows: Seq<OhlcvDaily>, window: int) -> Seq<OhlcvDaily> {
    rows.subrange(rows.len() - window, rows.len() as int)
}

/// The closing prices added up from zero, left to right, by `rust_decimal`.
pub open spec fn close_sum(rows: Seq<OhlcvDaily>) -> (int, nat, bool)
    decreases rows.len(),
{
    if rows.len() == 0 {
        (0, 0, false)
    } else {
        rust_decimal_add(close_sum(rows.drop_last()), rows.last().close_price@)
    }
}

/// Room that summing the closing prices may take: their magnitudes plus one each.
pub open spec fn close_budget(rows: Seq<OhlcvDaily>) -> int
    decreases rows.len(),
{
    if rows.len() == 0 {
        0
    } else {
        close_budget(rows.drop_last()) + rows.last().close_price.mag() + 1
    }
}

/// All rows have decimal prices.
pub open spec fn rows_wf(rows: Seq<OhlcvDaily>) -> bool {
    forall|i: int| 0 <= i < rows.len() ==> (#[trigger] rows[i]).wf()
}

pub proof fn lemma_close_budget_grows(rows: Seq<OhlcvDaily>, k: int)
    requires
        0 <= k <= rows.len(),
    ensures
        close_budget(rows.take(k)) <= close_budget(rows),
        close_budget(rows.take(k)) >= 0,
    decreases rows.len() - k,
{
    if k < rows.len() {
        lemma_close_budget_grows(rows, k + 1);
        assert(rows.take(k + 1).drop_last() =~= rows.take(k));
        lemma_abs_le_mag(rows[k].close_price);
        lemma_close_budget_nonneg(rows.take(k));
    } else {
        assert(rows.take(k) =~= rows);
        lemma_close_budget_nonneg(rows);
    }
}

pub proof fn lemma_close_budget_nonneg(rows: Seq<OhlcvDaily>)
    ensures
        close_budget(rows) >= 0,
    decreases rows.len(),
{
    if rows.len() > 0 {
        lemma_close_budget_nonneg(rows.drop_last());
        lemma_abs_le_mag(rows.last().close_price);
    }
}

/// What [`moving_average`] returns: the closing prices of the last `window` rows added up,
/// divided by `window`; nothing when there are fewer rows.
pub open spec fn moving_average_of(rows: Seq<OhlcvDaily>, window: int) -> Option<Dec> {
    if rows.len() < window {
        None
    } else {
        Some(dec_of(rust_decimal_div(close_sum(last_rows(rows, window)), int_dec(window)@)))
    }
}

/// The mean closing price of the last `window` rows.
pub fn moving_average(ohlcv: &[OhlcvDaily], window: usize) -> (r: Option<Dec>)
    requires
        window > 0,
        ohlcv@.len() <= i64::MAX,
        rows_wf(ohlcv@),
        ohlcv@.len() >= window ==> close_budget(last_rows(ohlcv@, window as int))
            < safe_magnitude(),
    ensures
        r == moving_average_of(ohlcv@, window as int),
        r matches Some(v) ==> v.wf(),
{
    let n = ohlcv.len();
    if n < window {
        return None;
    }
    let start = n - window;
    let ghost rows = last_rows(ohlcv@, window as int);
    let mut sum = Dec::zero();
    let mut i: usize = start;
    proof {
        lemma_close_budget_nonneg(rows);
    }
    while i < n
        invariant
            start <= i <= n,
            n == ohlcv@.len(),
            start == n - window,
            rows == last_rows(ohlcv@, window as int),
            rows_wf(ohlcv@),
            close_budget(rows) < safe_magnitude(),
            sum.wf(),
            sum@ == close_sum(rows.take(i - start)),
            sum.mag() <= close_budget(rows.take(i - start)),
        decreases n - i,
    {
        let ghost k = i - start;
        assert(rows.take(k + 1).drop_last() =~= rows.take(k));
        assert(rows.take(k + 1).last() == ohlcv@[i as int]);
        assert(ohlcv@[i as int].wf());
        proof {
            lemma_close_budget_grows(rows, k + 1);
        }
        sum = sum.add(&ohlcv[i].close_price);
        i = i + 1;
    }
    assert(rows.take(window as int) =~= rows);
    let divisor = Dec::from_int(window as i64);
    proof {
        lemma_pow10_small();
        assert(divisor.m() == window as int);
        assert(fits_ratio(sum.mag(), divisor)) by (nonlinear_arith)
            requires
                sum.mag() < safe_magnitude(),
                divisor.m() == window,
                window >= 1,
                divisor.s() == 0,
                pow10(0) == 1,
        ;
        lemma_quotient_bound(sum, divisor, sum.mag());
    }
    Some(sum.div(&divisor))
}

/// The traded amounts added up.
pub open spec fn amount_sum(rows: Seq<OhlcvDaily>) -> int
    decreases rows.len(),
{
    if rows.len() == 0 {
        0
    } else {
        amount_sum(rows.drop_last()) + rows.last().trade_amount
    }
}

/// Every running total of the traded amounts of the last `window` rows fits in an `i64`.
pub open spec fn amount_sums_fit(rows: Seq<OhlcvDaily>, window: int) -> bool {
    rows.len() >= window ==> forall|k: int|
        0 <= k <= window ==> fits_i64(#[trigger] amount_sum(last_rows(rows, window).take(k)))
}

/// Integer division rounding toward zero, as Rust's `/` on integers.
pub open spec fn trunc_div(a: int, b: int) -> int {
    if a >= 0 {
        a / b
    } else {
        -((-a) / b)
    }
}

/// What [`average_trade_amount`] returns.
pub open spec fn average_amount_of(rows: Seq<OhlcvDaily>, window: int) -> Option<int> {
    if rows.len() < window {
        None
    } else {
        Some(trunc_div(amount_sum(last_rows(rows, window)), window))
    }
}

/// The mean traded amount of the last `window` rows, rounded toward zero.
pub fn average_trade_amount(ohlcv: &[OhlcvDaily], window: usize) -> (r: Option<i64>)
    requires
        window > 0,
        ohlcv@.len() <= i64::MAX,
        amount_sums_fit(ohlcv@, window as int),
    ensures
        r matches Some(v) ==> average_amount_of(ohlcv@, window as int) == Some(v as int),
        r is None <==> average_amount_of(ohlcv@, window as int) is None,
{
    let n = ohlcv.len();
    if n < window {
        return None;
    }
    let start = n - window;
    let ghost rows = last_rows(ohlcv@, window as int);
    let mut sum: i64 = 0;
    let mut i: usize = start;
    while i < n
        invariant
            start <= i <= n,
            n == ohlcv@.len(),
            start == n - window,
            rows == last_rows(ohlcv@, window as int),
            amount_sums_fit(ohlcv@, window as int),
            sum == amount_sum(rows.take(i - start)),
        decreases n - i,
    {
        let ghost k = i - start;
        assert(rows.take(k + 1).drop_last() =~= rows.take(k));
        assert(rows.take(k + 1).last() == ohlcv@[i as int]);
        assert(fits_i64(amount_sum(rows.take(k + 1))));
        sum = sum + ohlcv[i].trade_amount;
        i = i + 1;
    }
    assert(rows.take(window as int) =~= rows);
    let w = window as i64;
    Some(sum / w)
}

/// What [`rise_rate`] returns: `(last close - close window rows back) / that close`.
pub open spec fn rise_rate_of(rows: Seq<OhlcvDaily>, window: int) -> Option<Dec> {
    if rows.len() < window || window < 2 {
        None
    } else {
        let start = rows[rows.len() - window].close_price;
        let end = rows.last().close_price;
        if start.mantissa == 0 {
            None
        } else {
            Some(dec_of(rust_decimal_div(rust_decimal_sub(end@, start@), start@)))
        }
    }
}

/// `end - start` stays clear of overflow and `(end - start) / start` too.
pub open spec fn change_computable(start: Dec, end: Dec) -> bool {
    &&& start.wf()
    &&& end.wf()
    &&& end.mag() + start.mag() <= safe_magnitude()
    &&& start.mantissa != 0 ==> fits_ratio(end.mag() + start.mag() + 1, start)
}

/// The rise of the closing price over the last `window` rows, as a fraction.
pub fn rise_rate(ohlcv: &[OhlcvDaily], window: usize) -> (r: Option<Dec>)
    requires
        ohlcv@.len() >= window >= 2 ==> change_computable(
            ohlcv@[ohlcv@.len() - window].close_price,
            ohlcv@.last().close_price,
        ),
    ensures
        r == rise_rate_of(ohlcv@, window as int),
        r matches Some(v) ==> v.wf(),
{
    let n = ohlcv.len();
    if n < window || window < 2 {
        return None;
    }
    let start = ohlcv[n - window].close_price;
    let end = ohlcv[n - 1].close_price;
    if start.is_zero() {
        return None;
    }
    let change = end.sub(&start);
    proof {
        lemma_quotient_bound(change, start, end.mag() + start.mag() + 1);
    }
    Some(change.div(&start))
}

/// What [`prev_day_rise_rate`] returns: the last day's change of the close, as a fraction.
pub open spec fn prev_day_rise_rate_of(rows: Seq<OhlcvDaily>) -> Option<Dec> {
    if rows.len() < 2 {
        None
    } else {
        let prev = rows[rows.len() - 2].close_price;
        let latest = rows.last().close_price;
        if prev.mantissa == 0 {
            None
        } else {
            Some(dec_of(rust_decimal_div(rust_decimal_sub(latest@, prev@), prev@)))
        }
    }
}

/// The rise of the last close over the close before it, as a fraction.
pub fn prev_day_rise_rate(ohlcv: &[OhlcvDaily]) -> (r: Option<Dec>)
    requires
        ohlcv@.len() >= 2 ==> change_computable(
            ohlcv@[ohlcv@.len() - 2].close_price,
            ohlcv@.last().close_price,
        ),
    ensures
        r == prev_day_rise_rate_of(ohlcv@),
        r matches Some(v) ==> v.wf(),
{
    let n = ohlcv.len();
    if n < 2 {
        return None;
    }
    let prev = ohlcv[n - 2].close_price;
    let latest = ohlcv[n - 1].close_price;
    if prev.is_zero() {
        return None;
    }
    let change = latest.sub(&prev);
    proof {
        lemma_quotient_bound(change, prev, latest.mag() + prev.mag() + 1);
    }
    Some(change.div(&prev))
}

// ---------------------------------------------------------------------------
// Scores
// ---------------------------------------------------------------------------

/// `d` held within 0 and 100, as `clamp_score` does.
pub open spec fn clamp_of(d: Dec) -> Dec {
    if d.lt(int_dec(0)) {
        int_dec(0)
    } else if int_dec(100).lt(d) {
        int_dec(100)
    } else {
        d
    }
}

pub open spec fn clamp_int(x: int) -> int {
    if x < 0 {
        0
    } else if x > 100 {
        100
    } else {
        x
    }
}

/// A decimal of scale zero whose value is the integer `k`.
pub open spec fn is_plain_int(d: Dec, k: int) -> bool {
    d.scale == 0 && d.m() == k && d.wf()
}

/// The score's value lies between 0 and 100.
pub open spec fn in_score_range(d: Dec) -> bool {
    int_dec(0).le(d) && d.le(int_dec(100))
}

proof fn lemma_clamp_plain(d: Dec, k: int)
    requires
        is_plain_int(d, k),
    ensures
        is_plain_int(clamp_of(d), clamp_int(k)),
{
    lemma_pow10_small();
}

fn clamp_score(score: Dec) -> (r: Dec)
    requires
        score.wf(),
    ensures
        r == clamp_of(score),
        r.wf(),
        in_score_range(r),
{
    proof {
        lemma_pow10_small();
    }
    let zero = Dec::zero();
    let hundred = Dec::from_int(100);
    if score.less(&zero) {
        zero
    } else if hundred.less(&score) {
        hundred
    } else {
        score
    }
}

/// `acc + k` on integers held as decimals of scale zero.
fn add_int(acc: Dec, k: i64) -> (r: Dec)
    requires
        acc.wf(),
        acc.scale == 0,
        -0x1000000000000 <= acc.m() <= 0x1000000000000,
        -0x1000000000000 <= k <= 0x1000000000000,
    ensures
        is_plain_int(r, acc.m() + k),
{
    proof {
        lemma_pow10_small();
    }
    acc.add(&Dec::from_int(k))
}

/// `acc - k` on integers held as decimals of scale zero.
fn sub_int(acc: Dec, k: i64) -> (r: Dec)
    requires
        acc.wf(),
        acc.scale == 0,
        -0x1000000000000 <= acc.m() <= 0x1000000000000,
        -0x1000000000000 <= k <= 0x1000000000000,
    ensures
        is_plain_int(r, acc.m() - k),
{
    proof {
        lemma_pow10_small();
    }
    acc.sub(&Dec::from_int(k))
}

/// Points for the number of net-buying days.
pub open spec fn day_points(days: int) -> int {
    if days == 5 {
        25
    } else if days == 4 {
        20
    } else if days == 3 {
        15
    } else {
        0
    }
}

/// Points for the five-day net buying amount.
pub open spec fn amount_points(total: int) -> int {
    if total >= 10_000_000_000 {
        20
    } else if total >= 5_000_000_000 {
        15
    } else if total >= 3_000_000_000 {
        10
    } else if total >= 1_000_000_000 {
        5
    } else {
        0
    }
}

/// Points for net buying relative to market capitalisation.
pub open spec fn cap_ratio_points(ratio: Dec) -> int {
    if !ratio.lt(lit_dec(10, 3)) {
        20
    } else if !ratio.lt(lit_dec(5, 3)) {
        15
    } else if !ratio.lt(lit_dec(2, 3)) {
        10
    } else if !ratio.lt(lit_dec(1, 3)) {
        5
    } else {
        0
    }
}

/// `total / market_cap` as `rust_decimal` computes it.
pub open spec fn cap_ratio(total: int, market_cap: int) -> Dec {
    dec_of(rust_decimal_div(int_dec(total)@, int_dec(market_cap)@))
}

/// The supply points before clamping.
pub open spec fn supply_points(
    inst_buy_days: int,
    foreign_buy_days: int,
    total: int,
    market_cap: Option<i64>,
) -> int {
    day_points(inst_buy_days) + day_points(foreign_buy_days) + amount_points(total) + (
    match market_cap {
        Some(cap) => if cap > 0 {
            cap_ratio_points(cap_ratio(total, cap as int))
        } else {
            0
        },
        None => 0,
    })
}

fn day_points_of(days: i32) -> (r: i64)
    ensures
        r == day_points(days as int),
{
    if days == 5 {
        25
    } else if days == 4 {
        20
    } else if days == 3 {
        15
    } else {
        0
    }
}

/// Scores institutional and foreign net buying: buying days, the five-day amount and
/// that amount relative to the market capitalisation.
pub fn supply_score(
    inst_buy_days: i32,
    foreign_buy_days: i32,
    total_net_buy_amt_5d: i64,
    market_cap: Option<i64>,
) -> (r: Dec)
    ensures
        is_plain_int(
            r,
            clamp_int(
                supply_points(
                    inst_buy_days as int,
                    foreign_buy_days as int,
                    total_net_buy_amt_5d as int,
                    market_cap,
                ),
            ),
        ),
        in_score_range(r),
{
    proof {
        lemma_pow10_small();
    }
    let mut score = Dec::zero();
    score = add_int(score, day_points_of(inst_buy_days));
    score = add_int(score, day_points_of(foreign_buy_days));
    let amount: i64 = if total_net_buy_amt_5d >= 10_000_000_000 {
        20
    } else if total_net_buy_amt_5d >= 5_000_000_000 {
        15
    } else if total_net_buy_amt_5d >= 3_000_000_000 {
        10
    } else if total_net_buy_amt_5d >= 1_000_000_000 {
        5
    } else {
        0
    };
    score = add_int(score, amount);
    match market_cap {
        Some(cap) => {
            if cap > 0 {
                let total = Dec::from_int(total_net_buy_amt_5d);
                let capital = Dec::from_int(cap);
                proof {
                    assert(total.mag() <= 0x10000000000000000);
                    assert(fits_ratio(total.mag(), capital)) by (nonlinear_arith)
                        requires
                            total.mag() <= 0x10000000000000000,
                            capital.m() >= 1,
                            pow10(capital.s()) == 1,
                    ;
                    lemma_quotient_bound(total, capital, total.mag());
                }
                let ratio = total.div(&capital);
                let points: i64 = if !ratio.less(&Dec::new(10, 3)) {
                    20
                } else if !ratio.less(&Dec::new(5, 3)) {
                    15
                } else if !ratio.less(&Dec::new(2, 3)) {
                    10
                } else if !ratio.less(&Dec::new(1, 3)) {
                    5
                } else {
                    0
                };
                score = add_int(score, points);
            }
        },
        None => {},
    }
    proof {
        lemma_clamp_plain(
            score,
            supply_points(
                inst_buy_days as int,
                foreign_buy_days as int,
                total_net_buy_amt_5d as int,
                market_cap,
            ),
        );
    }
    clamp_score(score)
}

/// The score of the first tier whose threshold `value` reaches, or zero.
pub open spec fn tier_points(value: int, tiers: Seq<(i64, i64)>) -> int
    decreases tiers.len(),
{
    if tiers.len() == 0 {
        0
    } else if value >= tiers[0].0 {
        tiers[0].1 as int
    } else {
        tier_points(value, tiers.drop_first())
    }
}

fn tier_score(value: i64, tiers: &[(i64, i64)]) -> (r: Dec)
    ensures
        is_plain_int(r, tier_points(value as int, tiers@)),
{
    let mut i: usize = 0;
    assert(tiers@.skip(0) =~= tiers@);
    while i < tiers.len()
        invariant
            i <= tiers@.len(),
            tier_points(value as int, tiers@) == tier_points(value as int, tiers@.skip(i as int)),
        decreases tiers.len() - i,
    {
        assert(tiers@.skip(i as int).drop_first() =~= tiers@.skip(i + 1));
        let (threshold, score) = tiers[i];
        if value >= threshold {
            return Dec::from_int(score);
        }
        i = i + 1;
    }
    proof {
        lemma_pow10_small();
    }
    Dec::zero()
}

/// Tiers of the twenty-day mean traded amount.
pub open spec fn tiers_20d() -> Seq<(i64, i64)> {
    seq![(50_000_000_000, 40), (20_000_000_000, 30), (10_000_000_000, 20), (5_000_000_000, 10)]
}

/// Tiers of the five-day mean traded amount.
pub open spec fn tiers_5d() -> Seq<(i64, i64)> {
    seq![(50_000_000_000, 30), (20_000_000_000, 20), (10_000_000_000, 15), (5_000_000_000, 10)]
}

/// Points for the five-day mean amount relative to the twenty-day mean: 30 from twice the
/// mean, 20 from one and a half times, 10 from a five-day mean at least as high.
pub open spec fn surge_points(ratio: Dec) -> int {
    if !ratio.lt(int_dec(2)) {
        30
    } else if !ratio.lt(lit_dec(15, 1)) {
        20
    } else if !ratio.lt(int_dec(1)) {
        10
    } else {
        0
    }
}

pub open spec fn unwrap_or_zero(x: Option<int>) -> int {
    match x {
        Some(v) => v,
        None => 0,
    }
}

/// The liquidity points before clamping.
pub open spec fn liquidity_points(rows: Seq<OhlcvDaily>) -> int {
    let avg20 = unwrap_or_zero(average_amount_of(rows, 20));
    let avg5 = unwrap_or_zero(average_amount_of(rows, 5));
    tier_points(avg20, tiers_20d()) + tier_points(avg5, tiers_5d()) + if avg20 > 0 {
        surge_points(dec_of(rust_decimal_div(int_dec(avg5)@, int_dec(avg20)@)))
    } else {
        0
    }
}

proof fn lemma_tier_points_small(value: int, tiers: Seq<(i64, i64)>)
    requires
        forall|i: int| 0 <= i < tiers.len() ==> 0 <= (#[trigger] tiers[i]).1 <= 40,
    ensures
        0 <= tier_points(value, tiers) <= 40,
    decreases tiers.len(),
{
    if tiers.len() > 0 {
        assert(tiers[0].1 <= 40);
        let rest = tiers.drop_first();
        assert forall|i: int| 0 <= i < rest.len() implies 0 <= (#[trigger] rest[i]).1 <= 40 by {
            assert(rest[i] == tiers[i + 1]);
        }
        lemma_tier_points_small(value, rest);
    }
}

/// Scores the traded amount: the twenty-day and five-day means and their ratio.
pub fn liquidity_score(ohlcv: &[OhlcvDaily]) -> (r: Dec)
    requires
        ohlcv@.len() <= i64::MAX,
        amount_sums_fit(ohlcv@, 20),
        amount_sums_fit(ohlcv@, 5),
    ensures
        is_plain_int(r, clamp_int(liquidity_points(ohlcv@))),
        in_score_range(r),
{
    proof {
        lemma_pow10_small();
    }
    let avg20 = match average_trade_amount(ohlcv, 20) {
        Some(v) => v,
        None => 0,
    };
    let avg5 = match average_trade_amount(ohlcv, 5) {
        Some(v) => v,
        None => 0,
    };
    let t20 = vec![
        (50_000_000_000i64, 40i64),
        (20_000_000_000i64, 30i64),
        (10_000_000_000i64, 20i64),
        (5_000_000_000i64, 10i64),
    ];
    let t5 = vec![
        (50_000_000_000i64, 30i64),
        (20_000_000_000i64, 20i64),
        (10_000_000_000i64, 15i64),
        (5_000_000_000i64, 10i64),
    ];
    assert(t20@ == tiers_20d());
    assert(t5@ == tiers_5d());
    let p20 = tier_score(avg20, t20.as_slice());
    let p5 = tier_score(avg5, t5.as_slice());
    proof {
        lemma_tier_points_small(avg20 as int, tiers_20d());
        lemma_tier_points_small(avg5 as int, tiers_5d());
    }
    let mut score = Dec::zero();
    score = add_int(score, p20.mantissa as i64);
    score = add_int(score, p5.mantissa as i64);
    if avg20 > 0 {
        let five = Dec::from_int(avg5);
        let twenty = Dec::from_int(avg20);
        proof {
            assert(five.mag() <= 0x10000000000000000);
            assert(fits_ratio(five.mag(), twenty)) by (nonlinear_arith)
                requires
                    five.mag() <= 0x10000000000000000,
                    twenty.m() >= 1,
                    pow10(twenty.s()) == 1,
            ;
            lemma_quotient_bound(five, twenty, five.mag());
        }
        let ratio = five.div(&twenty);
        let points: i64 = if !ratio.less(&Dec::from_int(2)) {
            30
        } else if !ratio.less(&Dec::new(15, 1)) {
            20
        } else if !ratio.less(&Dec::from_int(1)) {
            10
        } else {
            0
        };
        score = add_int(score, points);
    }
    proof {
        lemma_clamp_plain(score, liquidity_points(ohlcv@));
    }
    clamp_score(score)
}

/// The highest high price, the last of equal ones winning, as `Iterator::max` picks it.
pub open spec fn max_high(rows: Seq<OhlcvDaily>) -> Dec
    decreases rows.len(),
{
    if rows.len() <= 1 {
        rows[0].high_price
    } else {
        let best = max_high(rows.drop_last());
        let x = rows.last().high_price;
        if x.lt(best) {
            best
        } else {
            x
        }
    }
}

proof fn lemma_max_high_is_a_high(rows: Seq<OhlcvDaily>)
    requires
        rows.len() >= 1,
    ensures
        exists|i: int| 0 <= i < rows.len() && max_high(rows) == (#[trigger] rows[i]).high_price,
    decreases rows.len(),
{
    if rows.len() > 1 {
        lemma_max_high_is_a_high(rows.drop_last());
        let i = choose|i: int|
            0 <= i < rows.drop_last().len() && max_high(rows.drop_last()) == (#[trigger] rows.drop_last()[i]).high_price;
        assert(rows.drop_last()[i] == rows[i]);
        assert(rows.last() == rows[rows.len() - 1]);
    } else {
        assert(max_high(rows) == rows[0].high_price);
    }
}

/// Points of the rise over the last five closes.
pub open spec fn rise_points(rate: Option<Dec>) -> int {
    match rate {
        Some(r) => (if !r.lt(int_dec(0)) && !lit_dec(15, 2).lt(r) {
            20int
        } else {
            0
        }) - (if lit_dec(25, 2).lt(r) {
            40int
        } else {
            0
        }),
        None => 0,
    }
}

/// Points of the last close against the highest high.
pub open spec fn near_high_points(rows: Seq<OhlcvDaily>) -> int {
    let h = max_high(rows);
    let close = rows.last().close_price;
    if int_dec(0).lt(h) && !close.lt(dec_of(rust_decimal_mul(h@, lit_dec(90, 2)@))) {
        20
    } else {
        0
    }
}

/// The trend points before clamping, for at least one row.
pub open spec fn trend_points(rows: Seq<OhlcvDaily>, ma5: Option<Dec>, ma20: Option<Dec>) -> int {
    let close = rows.last().close_price;
    (if ma5 matches Some(m) && m.lt(close) {
        20int
    } else {
        0
    }) + (if ma20 matches Some(m) && m.lt(close) {
        20int
    } else {
        0
    }) + (if ma5 matches Some(a) && ma20 matches Some(b) && b.lt(a) {
        20int
    } else {
        0
    }) + rise_points(rise_rate_of(rows, 5)) + near_high_points(rows)
}

/// What the trend score needs of its inputs to stay clear of overflow.
pub open spec fn trend_computable(rows: Seq<OhlcvDaily>, ma5: Option<Dec>, ma20: Option<Dec>) -> bool {
    &&& rows_wf(rows)
    &&& forall|i: int| 0 <= i < rows.len() ==> (#[trigger] rows[i]).high_price.mag() <= safe_magnitude()
    &&& rows.len() >= 5 ==> change_computable(rows[rows.len() - 5].close_price, rows.last().close_price)
    &&& ma5 matches Some(m) ==> m.wf()
    &&& ma20 matches Some(m) ==> m.wf()
}

fn closes_above(ma: Option<Dec>, close: Dec) -> (r: bool)
    requires
        close.wf(),
        ma matches Some(m) ==> m.wf(),
    ensures
        r == (ma matches Some(m) && m.lt(close)),
{
    match ma {
        Some(m) => m.less(&close),
        None => false,
    }
}

fn highest_high(ohlcv: &[OhlcvDaily]) -> (r: Dec)
    requires
        ohlcv@.len() >= 1,
        rows_wf(ohlcv@),
        forall|i: int| 0 <= i < ohlcv@.len() ==> (#[trigger] ohlcv@[i]).high_price.mag() <= safe_magnitude(),
    ensures
        r == max_high(ohlcv@),
        r.wf(),
        r.mag() <= safe_magnitude(),
{
    let n = ohlcv.len();
    let mut best = ohlcv[0].high_price;
    assert(ohlcv@[0].wf());
    assert(ohlcv@.take(1) =~= seq![ohlcv@[0]]);
    let mut i: usize = 1;
    while i < n
        invariant
            1 <= i <= n,
            n == ohlcv@.len(),
            rows_wf(ohlcv@),
            best == max_high(ohlcv@.take(i as int)),
            best.wf(),
        decreases n - i,
    {
        assert(ohlcv@.take(i + 1).drop_last() =~= ohlcv@.take(i as int));
        assert(ohlcv@[i as int].wf());
        let x = ohlcv[i].high_price;
        if !x.less(&best) {
            best = x;
        }
        i = i + 1;
    }
    assert(ohlcv@.take(n as int) =~= ohlcv@);
    proof {
        lemma_max_high_is_a_high(ohlcv@);
    }
    best
}

fn near_high(ohlcv: &[OhlcvDaily]) -> (r: bool)
    requires
        ohlcv@.len() >= 1,
        rows_wf(ohlcv@),
        forall|i: int| 0 <= i < ohlcv@.len() ==> (#[trigger] ohlcv@[i]).high_price.mag() <= safe_magnitude(),
    ensures
        r == (near_high_points(ohlcv@) == 20),
{
    proof {
        lemma_pow10_small();
    }
    let close = ohlcv[ohlcv.len() - 1].close_price;
    assert(ohlcv@[ohlcv@.len() - 1].wf());
    let best = highest_high(ohlcv);
    if Dec::zero().less(&best) {
        let factor = Dec::new(90, 2);
        assert(factor.mag() == 1);
        let threshold = best.mul(&factor);
        !close.less(&threshold)
    } else {
        false
    }
}

/// Scores the trend: the last close against the moving averages, their order, the rise
/// over five closes and the distance from the highest high.
pub fn trend_score(ohlcv: &[OhlcvDaily], ma5: Option<Dec>, ma20: Option<Dec>) -> (r: Dec)
    requires
        trend_computable(ohlcv@, ma5, ma20),
    ensures
        ohlcv@.len() == 0 ==> r == int_dec(0),
        ohlcv@.len() > 0 ==> is_plain_int(r, clamp_int(trend_points(ohlcv@, ma5, ma20))),
        in_score_range(r),
{
    proof {
        lemma_pow10_small();
    }
    let n = ohlcv.len();
    if n == 0 {
        return Dec::zero();
    }
    let close = ohlcv[n - 1].close_price;
    assert(ohlcv@[n - 1].wf());
    let mut score = Dec::zero();
    if closes_above(ma5, close) {
        score = add_int(score, 20);
    }
    if closes_above(ma20, close) {
        score = add_int(score, 20);
    }
    match (ma5, ma20) {
        (Some(a), Some(b)) => {
            if b.less(&a) {
                score = add_int(score, 20);
            }
        },
        _ => {},
    }
    let ghost before_rise = score.m();
    match rise_rate(ohlcv, 5) {
        Some(rt) => {
            if !rt.less(&Dec::zero()) && !Dec::new(15, 2).less(&rt) {
                score = add_int(score, 20);
            }
            if Dec::new(25, 2).less(&rt) {
                score = sub_int(score, 40);
            }
        },
        None => {},
    }
    assert(score.m() == before_rise + rise_points(rise_rate_of(ohlcv@, 5)));
    if near_high(ohlcv) {
        score = add_int(score, 20);
    }
    proof {
        lemma_clamp_plain(score, trend_points(ohlcv@, ma5, ma20));
    }
    clamp_score(score)
}

/// Penalty points from the financial figures.
pub open spec fn financial_penalty(financial: Option<&FinancialRatio>) -> int {
    match financial {
        None => 0,
        Some(f) => (if f.debt_ratio matches Some(d) && int_dec(300).lt(d) {
            30int
        } else {
            0
        }) + (if f.operating_profit matches Some(p) && p < 0 {
            20int
        } else {
            0
        }) + (if f.quarterly_operating_profit matches Some(p) && p < 0 {
            10int
        } else {
            0
        }) + (if f.capital_impairment == Some(true) {
            50int
        } else {
            0
        }),
    }
}

/// The upper wick of a candle relative to its range, as `rust_decimal` computes it.
pub open spec fn wick_share(row: OhlcvDaily) -> Dec {
    let wick = rust_decimal_sub(row.high_price@, row.close_price@);
    let range = rust_decimal_sub(row.high_price@, row.low_price@);
    dec_of(rust_decimal_div(wick, range))
}

/// The range of a candle, as `rust_decimal` computes it.
pub open spec fn candle_range(row: OhlcvDaily) -> Dec {
    dec_of(rust_decimal_sub(row.high_price@, row.low_price@))
}

/// Penalty points for a long upper wick on the latest candle.
pub open spec fn wick_penalty(latest: Option<&OhlcvDaily>) -> int {
    match latest {
        None => 0,
        Some(row) => if int_dec(0).lt(candle_range(*row)) && lit_dec(45, 2).lt(wick_share(*row)) {
            15
        } else {
            0
        },
    }
}

/// Penalty points for a falling candle on more than three times the previous volume.
pub open spec fn volume_penalty(latest: Option<&OhlcvDaily>, prev: Option<&OhlcvDaily>) -> int {
    match (latest, prev) {
        (Some(l), Some(p)) => if l.volume > p.volume * 3 && l.close_price.lt(l.open_price) {
            20
        } else {
            0
        },
        _ => 0,
    }
}

/// The risk points before clamping.
pub open spec fn risk_points(
    financial: Option<&FinancialRatio>,
    latest: Option<&OhlcvDaily>,
    prev: Option<&OhlcvDaily>,
) -> int {
    100 - financial_penalty(financial) - wick_penalty(latest) - volume_penalty(latest, prev)
}

/// `high - low` of a candle in cross-multiplied form: positive exactly when high > low.
pub open spec fn range_numerator(row: OhlcvDaily) -> int {
    row.high_price.m() * pow10(row.low_price.s()) - row.low_price.m() * pow10(row.high_price.s())
}

/// What the upper-wick check needs of a candle to stay clear of overflow: the range is
/// exact, and the wick over the range stays within the decimal's capacity.
pub open spec fn wick_computable(row: OhlcvDaily) -> bool {
    let h = row.high_price;
    &&& row.wf()
    &&& h.mag() + row.close_price.mag() <= safe_magnitude()
    &&& h.mag() + row.low_price.mag() <= safe_magnitude()
    &&& abs(Dec::aligned_sum(h, row.low_price, true)) < MANTISSA_LIMIT
    &&& range_numerator(row) > 0 ==> (h.mag() + row.close_price.mag() + 1) * pow10(h.s()) * pow10(
        row.low_price.s(),
    ) <= (safe_magnitude() - 1) * range_numerator(row)
}

/// What the risk score needs of its inputs.
pub open spec fn risk_computable(
    financial: Option<&FinancialRatio>,
    latest: Option<&OhlcvDaily>,
    prev: Option<&OhlcvDaily>,
) -> bool {
    &&& financial matches Some(f) ==> f.wf()
    &&& latest matches Some(l) ==> wick_computable(*l)
    &&& (latest is Some && prev is Some) ==> fits_i64(prev->0.volume * 3)
}

proof fn lemma_range_fits(row: OhlcvDaily, range: Dec, k: int)
    requires
        row.wf(),
        range.is_sum_of(row.high_price, row.low_price, true),
        range.mantissa > 0,
        k >= 0,
        range_numerator(row) > 0 ==> k * pow10(row.high_price.s()) * pow10(row.low_price.s()) <= (
        safe_magnitude() - 1) * range_numerator(row),
    ensures
        fits_ratio(k, range),
{
    let ph = pow10(row.high_price.s());
    let pl = pow10(row.low_price.s());
    let pr = pow10(range.s());
    lemma_pow10_positive(row.high_price.s());
    lemma_pow10_positive(row.low_price.s());
    lemma_pow10_positive(range.s());
    let d = range_numerator(row);
    let c = safe_magnitude() - 1;
    assert(range.m() * ph * pl == d * pr);
    assert(d > 0) by (nonlinear_arith)
        requires
            range.m() * ph * pl == d * pr,
            range.m() > 0,
            ph >= 1,
            pl >= 1,
            pr >= 1,
    ;
    assert(k * pr <= c * range.m()) by (nonlinear_arith)
        requires
            range.m() * ph * pl == d * pr,
            k * ph * pl <= c * d,
            ph >= 1,
            pl >= 1,
            pr >= 1,
            c >= 1,
            k >= 0,
    ;
}

fn long_upper_wick(row: &OhlcvDaily) -> (r: bool)
    requires
        wick_computable(*row),
    ensures
        r == (wick_penalty(Some(row)) == 15),
{
    proof {
        lemma_pow10_small();
    }
    let upper_wick = row.high_price.sub(&row.close_price);
    let range = row.high_price.sub(&row.low_price);
    if Dec::zero().less(&range) {
        proof {
            assert(0 * pow10(range.s()) == 0);
            assert(range.m() > 0);
            lemma_abs_le_mag(row.high_price);
            lemma_abs_le_mag(row.close_price);
            lemma_range_fits(*row, range, row.high_price.mag() + row.close_price.mag() + 1);
            lemma_quotient_bound(upper_wick, range, row.high_price.mag() + row.close_price.mag() + 1);
        }
        let share = upper_wick.div(&range);
        Dec::new(45, 2).less(&share)
    } else {
        false
    }
}

/// Scores the risk from 100 down: heavy debt, losses, impaired capital, a long upper
/// wick and a falling candle on surging volume.
pub fn risk_score(
    financial: Option<&FinancialRatio>,
    latest: Option<&OhlcvDaily>,
    prev: Option<&OhlcvDaily>,
) -> (r: Dec)
    requires
        risk_computable(financial, latest, prev),
    ensures
        is_plain_int(r, clamp_int(risk_points(financial, latest, prev))),
        in_score_range(r),
{
    proof {
        lemma_pow10_small();
    }
    let mut score = Dec::from_int(100);
    match financial {
        None => {},
        Some(f) => {
            match f.debt_ratio {
                Some(d) => {
                    if Dec::from_int(300).less(&d) {
                        score = sub_int(score, 30);
                    }
                },
                None => {},
            }
            match f.operating_profit {
                Some(v) => {
                    if v < 0 {
                        score = sub_int(score, 20);
                    }
                },
                None => {},
            }
            match f.quarterly_operating_profit {
                Some(v) => {
                    if v < 0 {
                        score = sub_int(score, 10);
                    }
                },
                None => {},
            }
            if f.capital_impairment == Some(true) {
                score = sub_int(score, 50);
            }
        },
    }
    assert(score.m() == 100 - financial_penalty(financial));
    match latest {
        Some(row) => {
            if long_upper_wick(row) {
                score = sub_int(score, 15);
            }
        },
        None => {},
    }
    match (latest, prev) {
        (Some(l), Some(p)) => {
            if l.volume > p.volume * 3 && l.close_price.less(&l.open_price) {
                score = sub_int(score, 20);
            }
        },
        _ => {},
    }
    proof {
        lemma_clamp_plain(score, risk_points(financial, latest, prev));
    }
    clamp_score(score)
}

/// The weighted sum of the four scores, as `rust_decimal` computes it:
/// 45% supply, 20% liquidity, 20% trend and 15% risk.
pub open spec fn weighted_sum(supply: Dec, liquidity: Dec, trend: Dec, risk: Dec) -> Dec {
    let a = rust_decimal_mul(supply@, lit_dec(45, 2)@);
    let b = rust_decimal_mul(liquidity@, lit_dec(20, 2)@);
    let c = rust_decimal_mul(trend@, lit_dec(20, 2)@);
    let d = rust_decimal_mul(risk@, lit_dec(15, 2)@);
    dec_of(rust_decimal_add(rust_decimal_add(rust_decimal_add(a, b), c), d))
}

/// Four scores between 0 and 100 that share one scale of at most 24 places; whole scores,
/// as the scoring functions give them, share scale 0.
pub open spec fn even_scores(supply: Dec, liquidity: Dec, trend: Dec, risk: Dec) -> bool {
    let sc = supply.scale;
    &&& sc <= 24
    &&& liquidity.scale == sc && trend.scale == sc && risk.scale == sc
    &&& supply.wf() && 0 <= supply.m() <= 100 * pow10(sc as nat)
    &&& liquidity.wf() && 0 <= liquidity.m() <= 100 * pow10(sc as nat)
    &&& trend.wf() && 0 <= trend.m() <= 100 * pow10(sc as nat)
    &&& risk.wf() && 0 <= risk.m() <= 100 * pow10(sc as nat)
}

/// The weighted sum of four mantissas of one scale, in hundredths of that scale.
pub open spec fn weighted_mantissa(supply: Dec, liquidity: Dec, trend: Dec, risk: Dec) -> int {
    45 * supply.m() + 20 * liquidity.m() + 20 * trend.m() + 15 * risk.m()
}

/// Plain zero, as `Decimal::ZERO`.
pub open spec fn plain_zero() -> Dec {
    Dec { mantissa: 0, scale: 0, negative: false }
}

/// `x` holds the non-negative mantissa `v` at scale `sc + 2`, or is plain zero when `v` is.
pub open spec fn weighted_part(x: Dec, v: int, sc: int) -> bool {
    ||| v == 0 && x == plain_zero()
    ||| v > 0 && x.m() == v && x.scale == sc + 2
}

proof fn lemma_pow10_at_most_24(n: nat)
    requires
        n <= 24,
    ensures
        1 <= pow10(n) <= 1000000000000000000000000,
{
    lemma_pow10_positive(n);
    lemma_pow10_positive((24 - n) as nat);
    lemma_pow10_add(n, (24 - n) as nat);
    reveal_with_fuel(pow10, 25);
    assert(pow10(24) == 1000000000000000000000000);
    let x = pow10(n);
    let y = pow10((24 - n) as nat);
    assert(x <= x * y) by (nonlinear_arith)
        requires
            x >= 1,
            y >= 1,
    ;
}

proof fn lemma_times_le(x: int, y: int, p: int)
    requires
        x <= y,
        p >= 0,
    ensures
        x * p <= y * p,
{
    assert(x * p <= y * p) by (nonlinear_arith)
        requires
            x <= y,
            p >= 0,
    ;
}

/// A score compares with a value at two places more than the largest scale as its
/// mantissa there, a hundred times its mantissa at that scale.
proof fn lemma_score_at_top(x: Dec, r: Dec, n: nat)
    requires
        x.s() <= n,
        r.s() <= n + 2,
    ensures
        x.le(r) <==> 100 * at_scale(x, n) <= at_scale(r, n + 2),
        r.le(x) <==> at_scale(r, n + 2) <= 100 * at_scale(x, n),
{
    let d = (n - x.s()) as nat;
    lemma_pow10_add(d, 2);
    lemma_pow10_small();
    assert(((n + 2) as nat - x.s()) as nat == d + 2);
    let q = pow10(d);
    assert(x.m() * (q * 100) == 100 * (x.m() * q)) by (nonlinear_arith);
    assert(at_scale(x, n + 2) == 100 * at_scale(x, n));
    lemma_le_at_scale(x, r, n + 2);
    lemma_le_at_scale(r, x, n + 2);
}

/// Four scores between 0 and 100, each of at most 24 places.
pub open spec fn bounded_scores(supply: Dec, liquidity: Dec, trend: Dec, risk: Dec) -> bool {
    &&& score_of_places(supply)
    &&& score_of_places(liquidity)
    &&& score_of_places(trend)
    &&& score_of_places(risk)
}

/// A score between 0 and 100 of at most 24 places.
pub open spec fn score_of_places(x: Dec) -> bool {
    x.wf() && x.scale <= 24 && 0 <= x.m() <= 100 * pow10(x.s())
}

/// The largest scale among the four scores.
pub open spec fn top_scale(supply: Dec, liquidity: Dec, trend: Dec, risk: Dec) -> nat {
    let a = Dec::larger_scale(supply, liquidity);
    let b = Dec::larger_scale(trend, risk);
    if a >= b {
        a
    } else {
        b
    }
}

/// The mantissa of `x` at scale `n`, for a scale `n` at least that of `x`.
pub open spec fn at_scale(x: Dec, n: nat) -> int {
    x.m() * pow10((n - x.s()) as nat)
}

/// The weighted sum of the four scores as a mantissa at two places more than the largest
/// of their scales: 45% supply, 20% liquidity, 20% trend and 15% risk.
pub open spec fn weighted_at_top(supply: Dec, liquidity: Dec, trend: Dec, risk: Dec) -> int {
    let n = top_scale(supply, liquidity, trend, risk);
    45 * at_scale(supply, n) + 20 * at_scale(liquidity, n) + 20 * at_scale(trend, n) + 15
        * at_scale(risk, n)
}

/// Comparing two decimals by value is comparing their mantissas at a common scale.
proof fn lemma_le_at_scale(x: Dec, y: Dec, n: nat)
    requires
        x.s() <= n,
        y.s() <= n,
    ensures
        x.le(y) <==> at_scale(x, n) <= at_scale(y, n),
{
    let px = pow10(x.s());
    let py = pow10(y.s());
    let qx = pow10((n - x.s()) as nat);
    let qy = pow10((n - y.s()) as nat);
    let pn = pow10(n);
    lemma_pow10_positive(x.s());
    lemma_pow10_positive(y.s());
    lemma_pow10_positive((n - x.s()) as nat);
    lemma_pow10_positive((n - y.s()) as nat);
    lemma_pow10_add(x.s(), (n - x.s()) as nat);
    lemma_pow10_add(y.s(), (n - y.s()) as nat);
    lemma_pow10_positive(n);
    assert(x.s() + (n - x.s()) as nat == n);
    assert(y.s() + (n - y.s()) as nat == n);
    let ax = at_scale(x, n);
    let ay = at_scale(y, n);
    let lhs = x.m() * py;
    let rhs = y.m() * px;
    let k = qx * qy;
    assert(k >= 1) by (nonlinear_arith)
        requires
            qx >= 1,
            qy >= 1,
            k == qx * qy,
    ;
    assert(lhs * k == ax * pn) by (nonlinear_arith)
        requires
            lhs == x.m() * py,
            k == qx * qy,
            pn == py * qy,
            ax == x.m() * qx,
    ;
    assert(rhs * k == ay * pn) by (nonlinear_arith)
        requires
            rhs == y.m() * px,
            k == qx * qy,
            pn == px * qx,
            ay == y.m() * qy,
    ;
    assert(lhs <= rhs <==> lhs * k <= rhs * k) by (nonlinear_arith)
        requires
            k >= 1,
    ;
    assert(ax * pn <= ay * pn <==> ax <= ay) by (nonlinear_arith)
        requires
            pn >= 1,
    ;
}

/// What `rust_decimal`'s product `p` of `x` and `wd` is known to be.
pub open spec fn product_facts(x: Dec, wd: Dec, p: Dec) -> bool {
    &&& (x.mantissa == 0 || wd.mantissa == 0) ==> p == plain_zero()
    &&& (x.mantissa != 0 && wd.mantissa != 0 && x.scale + wd.scale <= MAX_SCALE && abs(
        x.m() * wd.m(),
    ) < MANTISSA_LIMIT) ==> p.m() == x.m() * wd.m() && p.scale == x.scale + wd.scale
}

/// What `rust_decimal`'s sum `r` of `a` and `b` is known to be.
pub open spec fn sum_facts(a: Dec, b: Dec, r: Dec) -> bool {
    &&& a.mantissa == 0 ==> r == b
    &&& a.mantissa != 0 && b.mantissa == 0 ==> r == a
    &&& a.mantissa != 0 && b.mantissa != 0 && abs(Dec::aligned_sum(a, b, false)) < MANTISSA_LIMIT
        ==> r.m() == Dec::aligned_sum(a, b, false) && r.s() == Dec::larger_scale(a, b)
}

proof fn lemma_zero_at_scale(x: Dec, n: nat)
    requires
        x.mantissa == 0,
    ensures
        at_scale(x, n) == 0,
{
    let q = pow10((n - x.s()) as nat);
    assert(x.m() * q == 0) by (nonlinear_arith)
        requires
            x.m() == 0,
    ;
}

/// A score times a weight of two places, as `rust_decimal` multiplies them, is the weight
/// times the score at two places more.
proof fn lemma_weighted_product(x: Dec, wd: Dec, p: Dec, n: nat)
    requires
        score_of_places(x),
        x.s() <= n,
        n <= 24,
        wd.wf(),
        wd.scale == 2,
        1 <= wd.m() <= 45,
        product_facts(x, wd, p),
    ensures
        p.s() <= n + 2,
        at_scale(p, n + 2) == wd.m() * at_scale(x, n),
        0 <= at_scale(x, n) <= 100 * pow10(n),
{
    let d = (n - x.s()) as nat;
    let q = pow10(d);
    let w = wd.m();
    lemma_pow10_positive(d);
    lemma_pow10_positive(x.s());
    lemma_pow10_add(x.s(), d);
    assert(x.s() + d == n);
    lemma_pow10_at_most_24(x.s());
    assert(0 <= x.m() * q <= 100 * pow10(n)) by (nonlinear_arith)
        requires
            0 <= x.m() <= 100 * pow10(x.s()),
            q >= 1,
            pow10(n) == pow10(x.s()) * q,
    ;
    if x.mantissa == 0 {
        lemma_zero_at_scale(p, n + 2);
        lemma_zero_at_scale(x, n);
        let ax = at_scale(x, n);
        assert(w * ax == 0) by (nonlinear_arith)
            requires
                ax == 0,
        ;
    } else {
        assert(x.m() * w <= 4500 * pow10(x.s())) by (nonlinear_arith)
            requires
                0 <= x.m() <= 100 * pow10(x.s()),
                1 <= w <= 45,
        ;
        assert(abs(x.m() * w) < MANTISSA_LIMIT);
        assert(((n + 2) as nat - p.s()) as nat == d);
        assert(at_scale(p, n + 2) == (x.m() * w) * q);
        assert((x.m() * w) * q == w * (x.m() * q)) by (nonlinear_arith);
        assert(at_scale(x, n) == x.m() * q);
    }
}

/// A sum that `rust_decimal` computes exactly, taken at a common scale, is the sum of the
/// operands at that scale.
proof fn lemma_sum_at_scale(a: Dec, b: Dec, r: Dec, n: nat)
    requires
        a.s() <= n,
        b.s() <= n,
        at_scale(a, n) >= 0,
        at_scale(b, n) >= 0,
        at_scale(a, n) + at_scale(b, n) < MANTISSA_LIMIT,
        sum_facts(a, b, r),
    ensures
        r.s() <= n,
        at_scale(r, n) == at_scale(a, n) + at_scale(b, n),
{
    if a.mantissa == 0 {
        lemma_zero_at_scale(a, n);
    } else if b.mantissa == 0 {
        lemma_zero_at_scale(b, n);
    } else {
        let top = Dec::larger_scale(a, b);
        let da = (top - a.s()) as nat;
        let db = (top - b.s()) as nat;
        let e = (n - top) as nat;
        lemma_pow10_positive(e);
        lemma_pow10_add(da, e);
        lemma_pow10_add(db, e);
        assert(da + e == (n - a.s()) as nat);
        assert(db + e == (n - b.s()) as nat);
        let pa = pow10(da);
        let pb = pow10(db);
        let pe = pow10(e);
        let al = Dec::aligned_sum(a, b, false);
        assert(al == a.m() * pa + b.m() * pb);
        let sa = at_scale(a, n);
        let sb = at_scale(b, n);
        assert(al * pe == sa + sb) by (nonlinear_arith)
            requires
                al == a.m() * pa + b.m() * pb,
                sa == a.m() * (pa * pe),
                sb == b.m() * (pb * pe),
        ;
        assert(0 <= al <= al * pe) by (nonlinear_arith)
            requires
                al * pe >= 0,
                pe >= 1,
        ;
        assert(abs(al) < MANTISSA_LIMIT);
        assert(at_scale(r, n) == al * pe);
    }
}

/// The sum that `final_score` builds of bounded scores is their weighted sum, between 0 and
/// 100 and between the smallest and the largest score.
proof fn lemma_weighted_total(
    supply_score: Dec,
    liquidity_score: Dec,
    trend_score: Dec,
    risk_score: Dec,
    weights: [Dec; 3],
    products: [Dec; 4],
    sums: [Dec; 3],
)
    requires
        bounded_scores(supply_score, liquidity_score, trend_score, risk_score),
        weights[0] == (Dec { mantissa: 45, scale: 2, negative: false }),
        weights[1] == (Dec { mantissa: 20, scale: 2, negative: false }),
        weights[2] == (Dec { mantissa: 15, scale: 2, negative: false }),
        product_facts(supply_score, weights[0], products[0]),
        product_facts(liquidity_score, weights[1], products[1]),
        product_facts(trend_score, weights[1], products[2]),
        product_facts(risk_score, weights[2], products[3]),
        sum_facts(products[0], products[1], sums[0]),
        sum_facts(sums[0], products[2], sums[1]),
        sum_facts(sums[1], products[3], sums[2]),
    ensures
        clamp_of(sums[2]) == sums[2],
        sums[2].s() <= top_scale(supply_score, liquidity_score, trend_score, risk_score) + 2,
        at_scale(sums[2], top_scale(supply_score, liquidity_score, trend_score, risk_score) + 2)
            == weighted_at_top(supply_score, liquidity_score, trend_score, risk_score),
        supply_score.le(sums[2]) || liquidity_score.le(sums[2]) || trend_score.le(sums[2])
            || risk_score.le(sums[2]),
        sums[2].le(supply_score) || sums[2].le(liquidity_score) || sums[2].le(trend_score)
            || sums[2].le(risk_score),
{
    let n = top_scale(supply_score, liquidity_score, trend_score, risk_score);
    let top = n + 2;
    let total = sums[2];
    lemma_pow10_at_most_24(n);
    lemma_pow10_small();
    lemma_weighted_product(supply_score, weights[0], products[0], n);
    lemma_weighted_product(liquidity_score, weights[1], products[1], n);
    lemma_weighted_product(trend_score, weights[1], products[2], n);
    lemma_weighted_product(risk_score, weights[2], products[3], n);
    lemma_sum_at_scale(products[0], products[1], sums[0], top);
    lemma_sum_at_scale(sums[0], products[2], sums[1], top);
    lemma_sum_at_scale(sums[1], products[3], total, top);
    lemma_pow10_add(n, 2);
    let zero = int_dec(0);
    let hundred = int_dec(100);
    lemma_le_at_scale(zero, total, top);
    lemma_le_at_scale(total, hundred, top);
    lemma_zero_at_scale(zero, top);
    assert(at_scale(hundred, top) == 100 * pow10(top));
    assert(zero.le(total));
    assert(total.le(hundred));
    lemma_score_at_top(supply_score, total, n);
    lemma_score_at_top(liquidity_score, total, n);
    lemma_score_at_top(trend_score, total, n);
    lemma_score_at_top(risk_score, total, n);
}

/// Combines the four scores with weights 45%, 20%, 20% and 15%, held within 0 and 100.
/// For scores between 0 and 100 of at most 24 places the result is exact and never clamped:
/// the weighted sum, at two places more than the largest of their scales, which lies between
/// the smallest and the largest score. Where the scores share a scale, the result has
/// exactly those two places more (or is plain zero when every score is zero).
pub fn final_score(supply_score: Dec, liquidity_score: Dec, trend_score: Dec, risk_score: Dec) -> (r: Dec)
    requires
        supply_score.wf(),
        liquidity_score.wf(),
        trend_score.wf(),
        risk_score.wf(),
        supply_score.mag() + liquidity_score.mag() + trend_score.mag() + risk_score.mag() + 10
            <= safe_magnitude(),
    ensures
        r == clamp_of(weighted_sum(supply_score, liquidity_score, trend_score, risk_score)),
        r.wf(),
        in_score_range(r),
        even_scores(supply_score, liquidity_score, trend_score, risk_score) ==> weighted_part(
            r,
            weighted_mantissa(supply_score, liquidity_score, trend_score, risk_score),
            supply_score.scale as int,
        ),
        bounded_scores(supply_score, liquidity_score, trend_score, risk_score) ==> r.s()
            <= top_scale(supply_score, liquidity_score, trend_score, risk_score) + 2 && at_scale(
            r,
            top_scale(supply_score, liquidity_score, trend_score, risk_score) + 2,
        ) == weighted_at_top(supply_score, liquidity_score, trend_score, risk_score),
        bounded_scores(supply_score, liquidity_score, trend_score, risk_score) ==> (
        supply_score.le(r) || liquidity_score.le(r) || trend_score.le(r) || risk_score.le(r)) && (
        r.le(supply_score) || r.le(liquidity_score) || r.le(trend_score) || r.le(risk_score)),
{
    proof {
        lemma_pow10_small();
        lemma_abs_le_mag(supply_score);
        lemma_abs_le_mag(liquidity_score);
        lemma_abs_le_mag(trend_score);
        lemma_abs_le_mag(risk_score);
    }
    let w45 = Dec::new(45, 2);
    let w20 = Dec::new(20, 2);
    let w15 = Dec::new(15, 2);
    assert(w45.mag() == 1 && w20.mag() == 1 && w15.mag() == 1);
    let a = supply_score.mul(&w45);
    let b = liquidity_score.mul(&w20);
    let c = trend_score.mul(&w20);
    let d = risk_score.mul(&w15);
    let ab = a.add(&b);
    let abc = ab.add(&c);
    let total = abc.add(&d);
    proof {
        if even_scores(supply_score, liquidity_score, trend_score, risk_score) {
            let sc = supply_score.scale as int;
            let p = pow10(sc as nat);
            lemma_pow10_at_most_24(sc as nat);
            let va = 45 * supply_score.m();
            let vb = 20 * liquidity_score.m();
            let vc = 20 * trend_score.m();
            let vd = 15 * risk_score.m();
            assert(0 <= va + vb + vc + vd <= 10000 * p);
            assert(10000 * p <= 10000000000000000000000000000);
            assert(weighted_part(a, va, sc));
            assert(weighted_part(b, vb, sc));
            assert(weighted_part(c, vc, sc));
            assert(weighted_part(d, vd, sc));
            assert(weighted_part(ab, va + vb, sc));
            assert(weighted_part(abc, va + vb + vc, sc));
            assert(weighted_part(total, va + vb + vc + vd, sc));
            let n = sc as nat;
            lemma_pow10_add(n, 2);
            assert(pow10(n + 2) == 100 * p) by (nonlinear_arith)
                requires
                    pow10(n + 2) == pow10(n) * pow10(2),
                    pow10(2) == 100,
                    p == pow10(n),
            ;
            lemma_pow10_small();
            assert(int_dec(0).s() == 0 && int_dec(0).m() == 0);
            assert(total.m() >= 0);
            assert(total.m() * pow10(int_dec(0).s()) == total.m());
            assert(int_dec(0).m() * pow10(total.s()) == 0);
            assert(!total.lt(int_dec(0)));
            assert(int_dec(100).s() == 0);
            if va + vb + vc + vd > 0 {
                assert(total.s() == n + 2);
                assert(pow10(total.s()) == 100 * p);
                assert(int_dec(100).m() == 100);
                assert(int_dec(100).m() * pow10(total.s()) == 10000 * p) by (nonlinear_arith)
                    requires
                        pow10(total.s()) == 100 * p,
                        int_dec(100).m() == 100,
                ;
                assert(total.m() * pow10(0) == total.m());
            }
            assert(!int_dec(100).lt(total));
            assert(clamp_of(total) == total);
        }
        if bounded_scores(supply_score, liquidity_score, trend_score, risk_score) {
            assert(product_facts(supply_score, w45, a));
            assert(product_facts(liquidity_score, w20, b));
            assert(product_facts(trend_score, w20, c));
            assert(product_facts(risk_score, w15, d));
            assert(sum_facts(a, b, ab));
            assert(sum_facts(ab, c, abc));
            assert(sum_facts(abc, d, total));
            lemma_weighted_total(
                supply_score,
                liquidity_score,
                trend_score,
                risk_score,
                [w45, w20, w15],
                [a, b, c, d],
                [ab, abc, total],
            );
        }
    }
    clamp_score(total)
}

/// The previous-day rise rate is the rise rate over the last two rows.
pub proof fn prev_day_rise_is_two_row_rise(rows: Seq<OhlcvDaily>)
    ensures
        prev_day_rise_rate_of(rows) == rise_rate_of(rows, 2),
{
}

/// Without a positive market capitalisation, the supply points never fall as the
/// five-day net buying total grows.
pub proof fn supply_rises_with_net_buying(
    inst_buy_days: int,
    foreign_buy_days: int,
    total: int,
    larger_total: int,
    market_cap: Option<i64>,
)
    requires
        total <= larger_total,
        market_cap matches Some(cap) ==> cap <= 0,
    ensures
        supply_points(inst_buy_days, foreign_buy_days, total, market_cap) <= supply_points(
            inst_buy_days,
            foreign_buy_days,
            larger_total,
            market_cap,
        ),
        clamp_int(supply_points(inst_buy_days, foreign_buy_days, total, market_cap)) <= clamp_int(
            supply_points(inst_buy_days, foreign_buy_days, larger_total, market_cap),
        ),
{
}


/// How the trend points are made up, for at least one row with last close `close`: 20
/// when the five-day average lies below the close, 20 when the twenty-day average does,
/// 20 more when both averages are given and the twenty-day one lies below the five-day one
/// (a rising trend), and, without averages, 20 for a five-day rise between 0% and 15%
/// taken from 40 off above 25%, and 20 for a close at 90% of the highest high or more.
pub proof fn trend_points_add_up(rows: Seq<OhlcvDaily>, a: Dec, b: Dec)
    requires
        rows.len() >= 1,
    ensures
        trend_points(rows, Some(a), None) == trend_points(rows, None, None) + (if a.lt(
            rows[rows.len() - 1].close_price,
        ) {
            20int
        } else {
            0
        }),
        trend_points(rows, None, Some(b)) == trend_points(rows, None, None) + (if b.lt(
            rows[rows.len() - 1].close_price,
        ) {
            20int
        } else {
            0
        }),
        trend_points(rows, Some(a), Some(b)) == trend_points(rows, Some(a), None) + trend_points(
            rows,
            None,
            Some(b),
        ) - trend_points(rows, None, None) + (if b.lt(a) {
            20int
        } else {
            0
        }),
        trend_points(rows, None, None) == (match rise_rate_of(rows, 5) {
            Some(rate) => (if int_dec(0).le(rate) && rate.le(lit_dec(15, 2)) {
                20int
            } else {
                0
            }) - (if lit_dec(25, 2).lt(rate) {
                40int
            } else {
                0
            }),
            None => 0,
        }) + (if int_dec(0).lt(max_high(rows)) && dec_of(
            rust_decimal_mul(max_high(rows)@, lit_dec(90, 2)@),
        ).le(rows[rows.len() - 1].close_price) {
            20int
        } else {
            0
        }),
{
}

/// With both averages given, a rising order of the averages (the twenty-day one below the
/// five-day one) is worth 20 trend points more than any other order, all else equal.
pub proof fn rising_averages_score_higher(rows: Seq<OhlcvDaily>, a: Dec, b: Dec, c: Dec, d: Dec)
    requires
        rows.len() >= 1,
        b.lt(a),
        !d.lt(c),
        a.lt(rows[rows.len() - 1].close_price) <==> c.lt(rows[rows.len() - 1].close_price),
        b.lt(rows[rows.len() - 1].close_price) <==> d.lt(rows[rows.len() - 1].close_price),
    ensures
        trend_points(rows, Some(a), Some(b)) == trend_points(rows, Some(c), Some(d)) + 20,
{
    trend_points_add_up(rows, a, b);
    trend_points_add_up(rows, c, d);
}


/// How the supply points are made up: 25, 20 or 15 for five, four or three institution
/// buying days, the same again for foreign buying days; 20, 15, 10 or 5 for a five-day net
/// buying total of at least 10, 5, 3 or 1 billion; and, for a positive market
/// capitalisation, 20, 15, 10 or 5 for a total of at least 1%, 0.5%, 0.2% or 0.1% of it.
pub proof fn supply_points_add_up(
    inst_buy_days: int,
    foreign_buy_days: int,
    total: int,
    market_cap: Option<i64>,
)
    ensures
        supply_points(inst_buy_days, foreign_buy_days, total, market_cap) == (if inst_buy_days
            == 5 {
            25int
        } else if inst_buy_days == 4 {
            20int
        } else if inst_buy_days == 3 {
            15int
        } else {
            0int
        }) + (if foreign_buy_days == 5 {
            25int
        } else if foreign_buy_days == 4 {
            20int
        } else if foreign_buy_days == 3 {
            15int
        } else {
            0int
        }) + (if total >= 10_000_000_000 {
            20int
        } else if total >= 5_000_000_000 {
            15int
        } else if total >= 3_000_000_000 {
            10int
        } else if total >= 1_000_000_000 {
            5int
        } else {
            0int
        }) + (match market_cap {
            Some(cap) => if cap <= 0 {
                0int
            } else if lit_dec(10, 3).le(cap_ratio(total, cap as int)) {
                20int
            } else if lit_dec(5, 3).le(cap_ratio(total, cap as int)) {
                15int
            } else if lit_dec(2, 3).le(cap_ratio(total, cap as int)) {
                10int
            } else if lit_dec(1, 3).le(cap_ratio(total, cap as int)) {
                5int
            } else {
                0int
            },
            None => 0int,
        }),
{
}

/// How the liquidity points are made up from the twenty-day and five-day mean traded
/// amounts (zero when there are too few rows): 40, 30, 20 or 10 for a twenty-day mean of at
/// least 50, 20, 10 or 5 billion; 30, 20, 15 or 10 for such a five-day mean; and, for a
/// positive twenty-day mean, 30, 20 or 10 for a five-day mean of at least twice, one and a
/// half times or once the twenty-day mean.
pub proof fn liquidity_points_add_up(rows: Seq<OhlcvDaily>)
    ensures
        liquidity_points(rows) == ({
            let avg20 = match average_amount_of(rows, 20) {
                Some(a) => a,
                None => 0,
            };
            let avg5 = match average_amount_of(rows, 5) {
                Some(a) => a,
                None => 0,
            };
            let ratio = dec_of(rust_decimal_div(int_dec(avg5)@, int_dec(avg20)@));
            (if avg20 >= 50_000_000_000 {
                40int
            } else if avg20 >= 20_000_000_000 {
                30int
            } else if avg20 >= 10_000_000_000 {
                20int
            } else if avg20 >= 5_000_000_000 {
                10int
            } else {
                0int
            }) + (if avg5 >= 50_000_000_000 {
                30int
            } else if avg5 >= 20_000_000_000 {
                20int
            } else if avg5 >= 10_000_000_000 {
                15int
            } else if avg5 >= 5_000_000_000 {
                10int
            } else {
                0int
            }) + (if avg20 <= 0 {
                0int
            } else if int_dec(2).le(ratio) {
                30int
            } else if lit_dec(15, 1).le(ratio) {
                20int
            } else if int_dec(1).le(ratio) {
                10int
            } else {
                0int
            })
        }),
{
    reveal_with_fuel(tier_points, 5);
}

/// How the risk points are made up: 100, less 30 for a debt ratio above 300, 20 for an
/// operating loss, 10 for a quarterly operating loss, 50 for impaired capital, 15 for a
/// latest candle with a range whose upper wick is more than 45% of it, and 20 for a latest
/// candle that closed below its open on more than three times the previous volume.
pub proof fn risk_points_add_up(
    financial: Option<&FinancialRatio>,
    latest: Option<&OhlcvDaily>,
    prev: Option<&OhlcvDaily>,
)
    ensures
        risk_points(financial, latest, prev) == 100 - (match financial {
            Some(f) => (if f.debt_ratio matches Some(d) && int_dec(300).lt(d) {
                30int
            } else {
                0int
            }) + (if f.operating_profit matches Some(p) && p < 0 {
                20int
            } else {
                0int
            }) + (if f.quarterly_operating_profit matches Some(p) && p < 0 {
                10int
            } else {
                0int
            }) + (if f.capital_impairment == Some(true) {
                50int
            } else {
                0int
            }),
            None => 0int,
        }) - (match latest {
            Some(row) => if int_dec(0).lt(dec_of(rust_decimal_sub(row.high_price@, row.low_price@)))
                && lit_dec(45, 2).lt(
                dec_of(
                    rust_decimal_div(
                        rust_decimal_sub(row.high_price@, row.close_price@),
                        rust_decimal_sub(row.high_price@, row.low_price@),
                    ),
                ),
            ) {
                15int
            } else {
                0int
            },
            None => 0int,
        }) - (match (latest, prev) {
            (Some(l), Some(p)) => if l.volume > p.volume * 3 && l.close_price.lt(l.open_price) {
                20int
            } else {
                0int
            },
            _ => 0int,
        }),
{
}

} // verus!
