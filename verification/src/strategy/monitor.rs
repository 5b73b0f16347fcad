//! Intraday entry rules: when a ready candidate raises a dry-run buy signal, and what the
//! signal records.
use vstd::prelude::*;
use crate::clock::{chrono_date_text, hms_text, Date, TimeOfDay, MIN_DAYS_FROM_CE};
use crate::config::{RiskSection, StrategySection};
use crate::discord::{format_signal_report, signal_report_lines};
use crate::decimal::{
    Dec, dec_of, decimal_text, int_dec, lemma_pow10_small, lit_dec, rust_decimal_div,
    rust_decimal_mul, rust_decimal_sub, safe_magnitude,
};
use crate::domain::{BuyOrderRequest, CurrentQuote, StrategyType, TradeCandidate, TradeSignal};
use crate::text::{join, joined, views};
use super::risk::{
    quote_computable, risk_allows_new_signal, risk_outcome, spread_rate, spread_rate_of,
    spread_reportable,
};
use super::scoring::change_computable;

verus! {

pub open spec fn hms(h: int, m: int, s: int) -> TimeOfDay {
    TimeOfDay { secs: (h * 3600 + m * 60 + s) as u32, nanos: 0 }
}

/// `체결강도` with the execution strength rounded to a whole number.
pub open spec fn strength_line(q: CurrentQuote) -> Seq<char> {
    "체결강도 "@ + decimal_text(q.execution_strength.rounded(0))
}

/// The expected traded amount ratio, rounded to a whole number, in percent.
pub open spec fn amount_ratio_line(q: CurrentQuote) -> Seq<char> {
    "거래대금 예상 대비 "@ + decimal_text(q.expected_trade_amount_ratio.rounded(0)) + "%"@
}

/// The spread in percent, rounded to two places.
pub open spec fn spread_line(q: CurrentQuote) -> Seq<char> {
    "호가 스프레드 "@ + decimal_text(
        dec_of(rust_decimal_mul(spread_rate_of(q)@, int_dec(100)@)).rounded(2),
    ) + "%"@
}

/// `(x - base) / base` as `rust_decimal` computes it.
pub open spec fn change_of(x: Dec, base: Dec) -> Dec {
    dec_of(rust_decimal_div(rust_decimal_sub(x@, base@), base@))
}

/// The reasons of an opening signal, or nothing when it does not fire.
pub open spec fn opening_reasons(c: TradeCandidate, q: CurrentQuote, now: TimeOfDay) -> Option<
    Seq<Seq<char>>,
> {
    if !now.at_or_after(hms(9, 3, 0)) || c.final_score.lt(int_dec(85)) {
        None
    } else {
        let gap = change_of(q.open_price, c.prev_close);
        if gap.lt(lit_dec(-1, 2)) || lit_dec(3, 2).lt(gap) {
            None
        } else if !q.open_price.lt(q.current_price) || q.execution_strength.lt(int_dec(110)) {
            None
        } else {
            Some(seq!["시초가 조건 통과"@, strength_line(q)])
        }
    }
}

/// The reasons of a pullback signal, or nothing when it does not fire.
pub open spec fn pullback_reasons(c: TradeCandidate, q: CurrentQuote) -> Option<Seq<Seq<char>>> {
    if c.final_score.lt(int_dec(70)) {
        None
    } else {
        let band = change_of(q.current_price, c.prev_close);
        match (c.ma5, c.ma20) {
            (Some(ma5), Some(ma20)) => {
                if band.lt(lit_dec(-2, 2)) || lit_dec(2, 2).lt(band) {
                    None
                } else if q.current_price.lt(dec_of(rust_decimal_mul(ma5@, lit_dec(995, 3)@)))
                    || q.current_price.lt(ma20) {
                    None
                } else if q.execution_strength.lt(int_dec(100)) || q.expected_trade_amount_ratio.lt(
                    int_dec(70),
                ) {
                    None
                } else {
                    Some(
                        seq![
                            "눌림목 가격 구간 진입"@,
                            strength_line(q),
                            amount_ratio_line(q),
                            spread_line(q),
                        ],
                    )
                }
            },
            _ => None,
        }
    }
}

/// The reasons of a breakout signal, or nothing when it does not fire.
pub open spec fn breakout_reasons(c: TradeCandidate, q: CurrentQuote) -> Option<Seq<Seq<char>>> {
    if c.final_score.lt(int_dec(80)) {
        None
    } else if q.current_price.lt(dec_of(rust_decimal_mul(c.prev_high@, lit_dec(1001, 3)@))) {
        None
    } else if q.execution_strength.lt(int_dec(120)) || q.expected_trade_amount_ratio.lt(
        int_dec(150),
    ) {
        None
    } else if q.vwap matches Some(v) && q.current_price.lt(v) {
        None
    } else {
        Some(seq!["전일고가 돌파"@, strength_line(q), amount_ratio_line(q), spread_line(q)])
    }
}

/// The reasons of the candidate's strategy inside the active window (09:10 to 15:10), if
/// that strategy is enabled and fires.
pub open spec fn signal_reasons(
    c: TradeCandidate,
    q: CurrentQuote,
    now: TimeOfDay,
    strategy: StrategySection,
) -> Option<Seq<Seq<char>>> {
    if !(now.at_or_after(hms(9, 10, 0)) && hms(15, 10, 0).at_or_after(now)) {
        None
    } else {
        match c.strategy_type {
            StrategyType::Opening => if strategy.enable_opening_strategy {
                opening_reasons(c, q, now)
            } else {
                None
            },
            StrategyType::Pullback => if strategy.enable_pullback_strategy {
                pullback_reasons(c, q)
            } else {
                None
            },
            StrategyType::Breakout => if strategy.enable_breakout_strategy {
                breakout_reasons(c, q)
            } else {
                None
            },
        }
    }
}

/// `(x - base) / base` stays clear of overflow and `base` is not zero.
pub open spec fn band_computable(base: Dec, x: Dec) -> bool {
    change_computable(base, x) && base.mantissa != 0
}

/// What the opening rule needs of its inputs to stay clear of overflow.
pub open spec fn opening_computable(c: TradeCandidate, q: CurrentQuote, now: TimeOfDay) -> bool {
    &&& c.wf()
    &&& q.wf()
    &&& (now.at_or_after(hms(9, 3, 0)) && !c.final_score.lt(int_dec(85))) ==> band_computable(
        c.prev_close,
        q.open_price,
    )
}

/// What the pullback rule needs of its inputs to stay clear of overflow.
pub open spec fn pullback_computable(c: TradeCandidate, q: CurrentQuote) -> bool {
    &&& c.wf()
    &&& spread_reportable(q)
    &&& !c.final_score.lt(int_dec(70)) ==> band_computable(c.prev_close, q.current_price)
    &&& c.ma5 matches Some(m) ==> m.mag() <= safe_magnitude()
}

/// What the breakout rule needs of its inputs to stay clear of overflow.
pub open spec fn breakout_computable(c: TradeCandidate, q: CurrentQuote) -> bool {
    &&& c.wf()
    &&& spread_reportable(q)
    &&& c.prev_high.mag() * 2 <= safe_magnitude()
}

fn text_of(s: &str) -> (r: String)
    ensures
        r@ == s@,
{
    String::from_str(s)
}

fn strength_text(q: &CurrentQuote) -> (r: String)
    requires
        q.wf(),
    ensures
        r@ == strength_line(*q),
{
    let mut line = text_of("체결강도 ");
    line.append(q.execution_strength.round_dp(0).to_text().as_str());
    line
}

fn amount_ratio_text(q: &CurrentQuote) -> (r: String)
    requires
        q.wf(),
    ensures
        r@ == amount_ratio_line(*q),
{
    let mut line = text_of("거래대금 예상 대비 ");
    line.append(q.expected_trade_amount_ratio.round_dp(0).to_text().as_str());
    line.append("%");
    line
}

fn spread_text(q: &CurrentQuote) -> (r: String)
    requires
        spread_reportable(*q),
    ensures
        r@ == spread_line(*q),
{
    proof {
        lemma_pow10_small();
    }
    let rate = spread_rate(q);
    let hundred = Dec::from_int(100);
    assert(hundred.mag() == 100);
    let percent = rate.mul(&hundred);
    let mut line = text_of("호가 스프레드 ");
    line.append(percent.round_dp(2).to_text().as_str());
    line.append("%");
    line
}

fn change(x: &Dec, base: &Dec) -> (r: Dec)
    requires
        band_computable(*base, *x),
    ensures
        r == change_of(*x, *base),
        r.wf(),
{
    let diff = x.sub(base);
    proof {
        crate::decimal::lemma_quotient_bound(diff, *base, x.mag() + base.mag() + 1);
    }
    diff.div(base)
}

pub fn opening_signal(candidate: &TradeCandidate, quote: &CurrentQuote, now: TimeOfDay) -> (r: Option<
    Vec<String>,
>)
    requires
        opening_computable(*candidate, *quote, now),
    ensures
        r is Some <==> opening_reasons(*candidate, *quote, now) is Some,
        r is Some ==> views(r->0@) == opening_reasons(*candidate, *quote, now)->0,
{
    proof {
        lemma_pow10_small();
    }
    if !now.is_at_or_after(&TimeOfDay::from_hms(9, 3, 0)) || candidate.final_score.less(
        &Dec::from_int(85),
    ) {
        return None;
    }
    let gap = change(&quote.open_price, &candidate.prev_close);
    if gap.less(&Dec::new(-1, 2)) || Dec::new(3, 2).less(&gap) {
        return None;
    }
    if !quote.open_price.less(&quote.current_price) || quote.execution_strength.less(
        &Dec::from_int(110),
    ) {
        return None;
    }
    let reasons = vec![text_of("시초가 조건 통과"), strength_text(quote)];
    assert(views(reasons@) =~= opening_reasons(*candidate, *quote, now)->0);
    Some(reasons)
}

pub fn pullback_signal(candidate: &TradeCandidate, quote: &CurrentQuote) -> (r: Option<Vec<String>>)
    requires
        pullback_computable(*candidate, *quote),
    ensures
        r is Some <==> pullback_reasons(*candidate, *quote) is Some,
        r is Some ==> views(r->0@) == pullback_reasons(*candidate, *quote)->0,
{
    proof {
        lemma_pow10_small();
    }
    if candidate.final_score.less(&Dec::from_int(70)) {
        return None;
    }
    let band = change(&quote.current_price, &candidate.prev_close);
    let ma5 = match candidate.ma5 {
        Some(m) => m,
        None => {
            return None;
        },
    };
    let ma20 = match candidate.ma20 {
        Some(m) => m,
        None => {
            return None;
        },
    };
    if band.less(&Dec::new(-2, 2)) || Dec::new(2, 2).less(&band) {
        return None;
    }
    let factor = Dec::new(995, 3);
    assert(factor.mag() == 1);
    let floor = ma5.mul(&factor);
    if quote.current_price.less(&floor) || quote.current_price.less(&ma20) {
        return None;
    }
    if quote.execution_strength.less(&Dec::from_int(100)) || quote.expected_trade_amount_ratio.less(
        &Dec::from_int(70),
    ) {
        return None;
    }
    let reasons = vec![
        text_of("눌림목 가격 구간 진입"),
        strength_text(quote),
        amount_ratio_text(quote),
        spread_text(quote),
    ];
    assert(views(reasons@) =~= pullback_reasons(*candidate, *quote)->0);
    Some(reasons)
}

pub fn breakout_signal(candidate: &TradeCandidate, quote: &CurrentQuote) -> (r: Option<Vec<String>>)
    requires
        breakout_computable(*candidate, *quote),
    ensures
        r is Some <==> breakout_reasons(*candidate, *quote) is Some,
        r is Some ==> views(r->0@) == breakout_reasons(*candidate, *quote)->0,
{
    proof {
        lemma_pow10_small();
    }
    if candidate.final_score.less(&Dec::from_int(80)) {
        return None;
    }
    let factor = Dec::new(1001, 3);
    assert(factor.mag() == 2);
    let trigger = candidate.prev_high.mul(&factor);
    if quote.current_price.less(&trigger) {
        return None;
    }
    if quote.execution_strength.less(&Dec::from_int(120)) || quote.expected_trade_amount_ratio.less(
        &Dec::from_int(150),
    ) {
        return None;
    }
    let below_vwap = match quote.vwap {
        Some(v) => quote.current_price.less(&v),
        None => false,
    };
    if below_vwap {
        return None;
    }
    let reasons = vec![
        text_of("전일고가 돌파"),
        strength_text(quote),
        amount_ratio_text(quote),
        spread_text(quote),
    ];
    assert(views(reasons@) =~= breakout_reasons(*candidate, *quote)->0);
    Some(reasons)
}

/// What every entry rule needs of its inputs to stay clear of overflow.
pub open spec fn signal_computable(c: TradeCandidate, q: CurrentQuote, now: TimeOfDay) -> bool {
    &&& opening_computable(c, q, now)
    &&& pullback_computable(c, q)
    &&& breakout_computable(c, q)
}

/// The reasons of the candidate's entry rule when it fires inside the active window
/// (09:10 to 15:10) and the rule is enabled; nothing otherwise.
pub fn evaluate_signal(
    candidate: &TradeCandidate,
    quote: &CurrentQuote,
    now: TimeOfDay,
    strategy: &StrategySection,
) -> (r: Option<Vec<String>>)
    requires
        signal_computable(*candidate, *quote, now),
    ensures
        r is Some <==> signal_reasons(*candidate, *quote, now, *strategy) is Some,
        r is Some ==> views(r->0@) == signal_reasons(*candidate, *quote, now, *strategy)->0,
{
    let active_window = now.is_at_or_after(&TimeOfDay::from_hms(9, 10, 0))
        && TimeOfDay::from_hms(15, 10, 0).is_at_or_after(&now);
    if !active_window {
        return None;
    }
    match candidate.strategy_type {
        StrategyType::Opening => {
            if strategy.enable_opening_strategy {
                opening_signal(candidate, quote, now)
            } else {
                None
            }
        },
        StrategyType::Pullback => {
            if strategy.enable_pullback_strategy {
                pullback_signal(candidate, quote)
            } else {
                None
            }
        },
        StrategyType::Breakout => {
            if strategy.enable_breakout_strategy {
                breakout_signal(candidate, quote)
            } else {
                None
            }
        },
    }
}

/// The day whose ready candidates are watched on `date`: the day before.
pub fn candidate_day(date: Date) -> (r: Date)
    requires
        date.wf(),
        date.days_from_ce - 1 >= MIN_DAYS_FROM_CE,
    ensures
        r.days_from_ce == date.days_from_ce - 1,
        r.wf(),
{
    date.minus_days(1)
}

/// What the monitor records and sends for a signal that passed the risk gate.
#[derive(Clone, Debug)]
pub struct SignalPlan {
    pub signal: TradeSignal,
    pub buy_request: BuyOrderRequest,
    pub report: String,
}

/// The timestamp a signal report shows: the date and `HH:MM:SS`.
pub open spec fn timestamp_text(date: Date, now: TimeOfDay) -> Seq<char> {
    chrono_date_text(date.days_from_ce as int) + " "@ + hms_text(now)
}

/// `plan` is what a signal on `candidate` at `now` with `reasons` records: the signal
/// (reasons one per line), a dry-run buy of one share at the current price (reasons
/// separated by commas), and the report sent to Discord.
pub open spec fn is_signal_plan(
    plan: SignalPlan,
    date: Date,
    now: TimeOfDay,
    c: TradeCandidate,
    q: CurrentQuote,
    reasons: Seq<Seq<char>>,
) -> bool {
    &&& plan.signal.signal_date == date
    &&& plan.signal.signal_time == now
    &&& plan.signal.stock_code@ == c.stock_code@
    &&& plan.signal.stock_name@ == c.stock_name@
    &&& plan.signal.strategy_type == c.strategy_type
    &&& plan.signal.signal_price == q.current_price
    &&& plan.signal.final_score == c.final_score
    &&& plan.signal.reason@ == joined(reasons, "\n"@)
    &&& plan.buy_request.trade_date == date
    &&& plan.buy_request.stock_code@ == c.stock_code@
    &&& plan.buy_request.stock_name@ == c.stock_name@
    &&& plan.buy_request.price == q.current_price
    &&& plan.buy_request.qty == 1
    &&& plan.buy_request.reason@ == joined(reasons, ", "@)
    &&& plan.report@ == joined(
        signal_report_lines(
            timestamp_text(date, now),
            c.stock_code@,
            c.stock_name@,
            c.strategy_type,
            q.current_price,
            c.prev_high,
            c.final_score,
            reasons,
        ),
        "\n"@,
    )
}

/// The second half of a monitor step, once the candidate's entry rule gave `reasons`: the
/// risk gate, given today's signal count and whether the stock already signaled today,
/// then what to record and send. The refusal is the risk gate's reason.
pub fn plan_signal(
    date: Date,
    now: TimeOfDay,
    candidate: &TradeCandidate,
    quote: &CurrentQuote,
    reasons: &Vec<String>,
    risk: &RiskSection,
    daily_signal_count: i64,
    already_signaled: bool,
) -> (r: Result<SignalPlan, String>)
    requires
        date.wf(),
        now.wf(),
        candidate.wf(),
        quote.wf(),
        quote_computable(*quote),
        risk.wf(),
    ensures
        r is Err <==> risk_outcome(*quote, *risk, daily_signal_count, already_signaled, now) is Err,
        r is Err ==> risk_outcome(*quote, *risk, daily_signal_count, already_signaled, now)
            == Err::<(), Seq<char>>(r->Err_0@),
        r matches Ok(plan) ==> is_signal_plan(plan, date, now, *candidate, *quote, views(reasons@)),
{
    match risk_allows_new_signal(quote, risk, daily_signal_count, already_signaled, now) {
        Err(reason) => {
            return Err(reason);
        },
        Ok(()) => {},
    }
    let signal = TradeSignal {
        signal_date: date,
        signal_time: now,
        stock_code: candidate.stock_code.clone(),
        stock_name: candidate.stock_name.clone(),
        strategy_type: candidate.strategy_type,
        signal_price: quote.current_price,
        final_score: candidate.final_score,
        reason: join(reasons, "\n"),
    };
    let buy_request = BuyOrderRequest {
        trade_date: date,
        stock_code: candidate.stock_code.clone(),
        stock_name: candidate.stock_name.clone(),
        price: quote.current_price,
        qty: 1,
        reason: join(reasons, ", "),
    };
    let mut timestamp = date.to_text();
    timestamp.append(" ");
    timestamp.append(now.to_text().as_str());
    let report = format_signal_report(
        timestamp.as_str(),
        candidate.stock_code.as_str(),
        candidate.stock_name.as_str(),
        candidate.strategy_type,
        quote.current_price,
        candidate.prev_high,
        candidate.final_score,
        reasons.as_slice(),
    );
    Ok(SignalPlan { signal, buy_request, report })
}

/// A signal is raised only inside the active window, 09:10 to 15:10, and only by an
/// enabled strategy: the candidate's own.
pub proof fn signals_only_in_active_window(
    c: TradeCandidate,
    q: CurrentQuote,
    now: TimeOfDay,
    strategy: StrategySection,
)
    requires
        signal_reasons(c, q, now, strategy) is Some,
    ensures
        now.at_or_after(hms(9, 10, 0)),
        hms(15, 10, 0).at_or_after(now),
        c.strategy_type == StrategyType::Opening ==> strategy.enable_opening_strategy,
        c.strategy_type == StrategyType::Pullback ==> strategy.enable_pullback_strategy,
        c.strategy_type == StrategyType::Breakout ==> strategy.enable_breakout_strategy,
{
}


/// The day's signals after a monitoring run over `steps`, each a candidate's stock code,
/// its quote and the time of day: the count and the stocks that have a signal. A step whose
/// quote passes the risk gate, given the count so far and whether its stock already has a
/// signal, raises a signal for its stock; any other step changes nothing.
pub open spec fn run_signals(
    risk: RiskSection,
    count: i64,
    signaled: Set<Seq<char>>,
    steps: Seq<(Seq<char>, CurrentQuote, TimeOfDay)>,
) -> (i64, Set<Seq<char>>)
    decreases steps.len(),
{
    if steps.len() == 0 {
        (count, signaled)
    } else {
        let (code, quote, now) = steps[0];
        if risk_outcome(quote, risk, count, signaled.contains(code), now) is Ok {
            run_signals(risk, (count + 1) as i64, signaled.insert(code), steps.drop_first())
        } else {
            run_signals(risk, count, signaled, steps.drop_first())
        }
    }
}

/// In one monitoring run the day's signal count never passes the larger of its count at
/// the start and the daily limit, and each new signal is for a stock that had none: the
/// count grows by exactly the number of stocks that gained a signal.
pub proof fn monitor_run_respects_limits(
    risk: RiskSection,
    count: i64,
    signaled: Set<Seq<char>>,
    steps: Seq<(Seq<char>, CurrentQuote, TimeOfDay)>,
)
    requires
        signaled.finite(),
    ensures
        run_signals(risk, count, signaled, steps).0 <= (if count >= risk.max_daily_buy_count {
            count
        } else {
            risk.max_daily_buy_count
        }),
        signaled.subset_of(run_signals(risk, count, signaled, steps).1),
        run_signals(risk, count, signaled, steps).1.finite(),
        run_signals(risk, count, signaled, steps).0 == count + run_signals(
            risk,
            count,
            signaled,
            steps,
        ).1.difference(signaled).len(),
{
    lemma_run_from(risk, count, signaled, signaled, steps);
    assert(signaled.difference(signaled) =~= Set::empty());
}

proof fn lemma_run_from(
    risk: RiskSection,
    count: i64,
    start: Set<Seq<char>>,
    signaled: Set<Seq<char>>,
    steps: Seq<(Seq<char>, CurrentQuote, TimeOfDay)>,
)
    requires
        signaled.finite(),
        start.subset_of(signaled),
    ensures
        ({
            let (end_count, end) = run_signals(risk, count, signaled, steps);
            &&& end_count <= (if count >= risk.max_daily_buy_count {
                count
            } else {
                risk.max_daily_buy_count
            })
            &&& signaled.subset_of(end)
            &&& end.finite()
            &&& end_count - count == end.difference(start).len() - signaled.difference(start).len()
        }),
    decreases steps.len(),
{
    if steps.len() > 0 {
        let (code, quote, now) = steps[0];
        if risk_outcome(quote, risk, count, signaled.contains(code), now) is Ok {
            let next = signaled.insert(code);
            assert(!signaled.contains(code));
            assert(next.difference(start) =~= signaled.difference(start).insert(code));
            lemma_run_from(risk, (count + 1) as i64, start, next, steps.drop_first());
        } else {
            lemma_run_from(risk, count, start, signaled, steps.drop_first());
        }
    }
}


/// A breakout fires exactly when the candidate's final score is at least 80, the current
/// price is at least 0.1% above the previous high, the execution strength is at least 120,
/// the expected traded amount ratio is at least 150, and the price is not below the VWAP
/// where one is given; it then gives four reasons, the first being the breakout itself.
pub proof fn breakout_fires_exactly_when(c: TradeCandidate, q: CurrentQuote)
    ensures
        breakout_reasons(c, q) is Some <==> {
            &&& int_dec(80).le(c.final_score)
            &&& dec_of(rust_decimal_mul(c.prev_high@, lit_dec(1001, 3)@)).le(q.current_price)
            &&& int_dec(120).le(q.execution_strength)
            &&& int_dec(150).le(q.expected_trade_amount_ratio)
            &&& q.vwap matches Some(v) ==> v.le(q.current_price)
        },
        breakout_reasons(c, q) matches Some(reasons) ==> reasons.len() == 4 && reasons[0]
            == "전일고가 돌파"@,
{
}

/// A pullback fires exactly when the candidate's final score is at least 70, both its
/// moving averages are known, the current price lies within 2% of the previous close, at
/// or above 99.5% of the five-day average and at or above the twenty-day average, the
/// execution strength is at least 100 and the expected traded amount ratio at least 70.
pub proof fn pullback_fires_exactly_when(c: TradeCandidate, q: CurrentQuote)
    ensures
        pullback_reasons(c, q) is Some <==> {
            &&& int_dec(70).le(c.final_score)
            &&& c.ma5 is Some && c.ma20 is Some
            &&& lit_dec(-2, 2).le(change_of(q.current_price, c.prev_close))
            &&& change_of(q.current_price, c.prev_close).le(lit_dec(2, 2))
            &&& dec_of(rust_decimal_mul(c.ma5->0@, lit_dec(995, 3)@)).le(q.current_price)
            &&& c.ma20->0.le(q.current_price)
            &&& int_dec(100).le(q.execution_strength)
            &&& int_dec(70).le(q.expected_trade_amount_ratio)
        },
        pullback_reasons(c, q) matches Some(reasons) ==> reasons.len() == 4 && reasons[0]
            == "눌림목 가격 구간 진입"@,
{
}

/// An opening signal fires exactly when it is 09:03 or later, the candidate's final score
/// is at least 85, the opening gap from the previous close lies between -1% and 3%, the
/// current price is above the opening price and the execution strength is at least 110.
pub proof fn opening_fires_exactly_when(c: TradeCandidate, q: CurrentQuote, now: TimeOfDay)
    ensures
        opening_reasons(c, q, now) is Some <==> {
            &&& now.at_or_after(hms(9, 3, 0))
            &&& int_dec(85).le(c.final_score)
            &&& lit_dec(-1, 2).le(change_of(q.open_price, c.prev_close))
            &&& change_of(q.open_price, c.prev_close).le(lit_dec(3, 2))
            &&& q.open_price.lt(q.current_price)
            &&& int_dec(110).le(q.execution_strength)
        },
        opening_reasons(c, q, now) matches Some(reasons) ==> reasons.len() == 2 && reasons[0]
            == "시초가 조건 통과"@,
{
}

/// A signal comes only between 09:10 and 15:10, for a candidate whose strategy is enabled,
/// and it is that strategy's signal.
pub proof fn signals_follow_their_strategy(
    c: TradeCandidate,
    q: CurrentQuote,
    now: TimeOfDay,
    strategy: StrategySection,
)
    ensures
        signal_reasons(c, q, now, strategy) is Some ==> now.at_or_after(hms(9, 10, 0)) && hms(
            15,
            10,
            0,
        ).at_or_after(now),
        c.strategy_type == StrategyType::Breakout ==> signal_reasons(c, q, now, strategy) is Some
            ==> strategy.enable_breakout_strategy && signal_reasons(c, q, now, strategy)
            == breakout_reasons(c, q),
        c.strategy_type == StrategyType::Pullback ==> signal_reasons(c, q, now, strategy) is Some
            ==> strategy.enable_pullback_strategy && signal_reasons(c, q, now, strategy)
            == pullback_reasons(c, q),
        c.strategy_type == StrategyType::Opening ==> signal_reasons(c, q, now, strategy) is Some
            ==> strategy.enable_opening_strategy && signal_reasons(c, q, now, strategy)
            == opening_reasons(c, q, now),
{
}

} // verus!
