//! Gates every new buy signal must pass.
use vstd::prelude::*;
use crate::clock::{chrono_parse_hms, TimeOfDay};
use crate::config::RiskSection;
use crate::decimal::{
    Dec, abs, dec_of, fits_ratio, int_dec, lemma_pow10_small, lemma_quotient_bound,
    lemma_quotient_bound_by, pow10, rust_decimal_div, rust_decimal_sub, safe_magnitude,
};
use crate::domain::CurrentQuote;
use super::scoring::change_computable;

verus! {

/// What [`is_after_no_new_buy`] returns: whether `now` is at or after the configured cut-off,
/// or chrono's complaint about the cut-off text.
pub open spec fn after_cutoff(now: TimeOfDay, cutoff_text: Seq<char>) -> Result<bool, Seq<char>> {
    match chrono_parse_hms(cutoff_text) {
        Ok(t) => Ok(now.secs > t.0 || (now.secs == t.0 && now.nanos >= t.1)),
        Err(e) => Err(e),
    }
}

/// Whether new buys are over for the day: `now` is at or after `no_new_buy_after`.
pub fn is_after_no_new_buy(now: TimeOfDay, risk: &RiskSection) -> (r: Result<bool, String>)
    ensures
        r is Ok ==> after_cutoff(now, risk.no_new_buy_after@) == Ok::<bool, Seq<char>>(r->Ok_0),
        r is Err ==> after_cutoff(now, risk.no_new_buy_after@) == Err::<bool, Seq<char>>(
            r->Err_0@,
        ),
{
    let cutoff = TimeOfDay::parse_hms(risk.no_new_buy_after.as_str());
    match cutoff {
        Ok(t) => Ok(now.is_at_or_after(&t)),
        Err(e) => Err(e),
    }
}

/// What [`spread_rate`] returns: the bid-ask spread over the current price, or 999999
/// when the current price is zero.
pub open spec fn spread_rate_of(q: CurrentQuote) -> Dec {
    if q.current_price.mantissa == 0 {
        int_dec(999_999)
    } else {
        let spread = if !q.ask_price.lt(q.bid_price) {
            rust_decimal_sub(q.ask_price@, q.bid_price@)
        } else {
            rust_decimal_sub(q.bid_price@, q.ask_price@)
        };
        dec_of(rust_decimal_div(spread, q.current_price@))
    }
}

/// What the spread needs of a quote to stay clear of overflow.
pub open spec fn spread_computable(q: CurrentQuote) -> bool {
    &&& q.wf()
    &&& q.ask_price.mag() + q.bid_price.mag() <= safe_magnitude()
    &&& q.current_price.mantissa != 0 ==> fits_ratio(
        q.ask_price.mag() + q.bid_price.mag() + 1,
        q.current_price,
    )
}

/// The spread is small enough next to the current price that a hundred times its rate
/// stays clear of overflow.
pub open spec fn spread_reportable(q: CurrentQuote) -> bool {
    &&& spread_computable(q)
    &&& q.current_price.mantissa != 0 ==> (q.ask_price.mag() + q.bid_price.mag() + 1) * pow10(
        q.current_price.s(),
    ) <= 0x10000000000000000000000 * abs(q.current_price.m())
}

/// The bid-ask spread as a fraction of the current price.
pub fn spread_rate(quote: &CurrentQuote) -> (r: Dec)
    requires
        spread_computable(*quote),
    ensures
        r == spread_rate_of(*quote),
        r.wf(),
        spread_reportable(*quote) ==> r.mag() <= 0x10000000000000000000002,
{
    proof {
        lemma_pow10_small();
    }
    if quote.current_price.is_zero() {
        return Dec::from_int(999_999);
    }
    let spread = if !quote.ask_price.less(&quote.bid_price) {
        quote.ask_price.sub(&quote.bid_price)
    } else {
        quote.bid_price.sub(&quote.ask_price)
    };
    proof {
        lemma_quotient_bound(
            spread,
            quote.current_price,
            quote.ask_price.mag() + quote.bid_price.mag() + 1,
        );
        if spread_reportable(*quote) {
            lemma_quotient_bound_by(
                spread,
                quote.current_price,
                quote.ask_price.mag() + quote.bid_price.mag() + 1,
                0x10000000000000000000000,
            );
        }
    }
    spread.div(&quote.current_price)
}

/// What [`intraday_rise_rate`] returns: the change from the previous close, as a fraction,
/// or zero when the previous close is zero.
pub open spec fn intraday_rise_rate_of(q: CurrentQuote) -> Dec {
    if q.prev_close.mantissa == 0 {
        int_dec(0)
    } else {
        dec_of(
            rust_decimal_div(rust_decimal_sub(q.current_price@, q.prev_close@), q.prev_close@),
        )
    }
}

/// The rise of the current price over the previous close, as a fraction.
pub fn intraday_rise_rate(quote: &CurrentQuote) -> (r: Dec)
    requires
        change_computable(quote.prev_close, quote.current_price),
    ensures
        r == intraday_rise_rate_of(*quote),
        r.wf(),
{
    if quote.prev_close.is_zero() {
        return Dec::zero();
    }
    let change = quote.current_price.sub(&quote.prev_close);
    proof {
        lemma_quotient_bound(
            change,
            quote.prev_close,
            quote.current_price.mag() + quote.prev_close.mag() + 1,
        );
    }
    change.div(&quote.prev_close)
}

/// What the risk gate answers: the first limit a new signal would break, or success.
pub open spec fn risk_outcome(
    quote: CurrentQuote,
    risk: RiskSection,
    daily_signal_count: i64,
    already_signaled: bool,
    now: TimeOfDay,
) -> Result<(), Seq<char>> {
    if daily_signal_count >= risk.max_daily_buy_count {
        Err("하루 최대 신규 매수 신호 수 초과"@)
    } else if already_signaled {
        Err("동일 종목 하루 중복 신호 방지"@)
    } else if after_cutoff(now, risk.no_new_buy_after@) is Err {
        Err(after_cutoff(now, risk.no_new_buy_after@)->Err_0)
    } else if after_cutoff(now, risk.no_new_buy_after@) == Ok::<bool, Seq<char>>(true) {
        Err("15:10 이후 신규 매수 금지"@)
    } else if risk.max_spread_rate.lt(spread_rate_of(quote)) {
        Err("호가 스프레드 초과"@)
    } else if risk.max_intraday_rise_rate.lt(intraday_rise_rate_of(quote)) {
        Err("당일 상승률 제한 초과"@)
    } else if quote.is_vi_expected {
        Err("VI 직전 또는 VI 발동 추정 종목 제외"@)
    } else {
        Ok(())
    }
}

/// What the risk gate needs of a quote to stay clear of overflow.
pub open spec fn quote_computable(q: CurrentQuote) -> bool {
    spread_computable(q) && change_computable(q.prev_close, q.current_price)
}

fn err_text(text: &str) -> (r: Result<(), String>)
    ensures
        r is Err,
        r->Err_0@ == text@,
{
    Err(String::from_str(text))
}

/// Whether a new signal may be raised: the daily signal limit, one signal per stock and
/// day, the cut-off time, the spread, the day's rise and a volatility interruption.
pub fn risk_allows_new_signal(
    quote: &CurrentQuote,
    risk: &RiskSection,
    daily_signal_count: i64,
    already_signaled: bool,
    now: TimeOfDay,
) -> (r: Result<(), String>)
    requires
        quote_computable(*quote),
        risk.wf(),
    ensures
        r is Ok <==> risk_outcome(*quote, *risk, daily_signal_count, already_signaled, now) is Ok,
        r is Err ==> risk_outcome(*quote, *risk, daily_signal_count, already_signaled, now)
            == Err::<(), Seq<char>>(r->Err_0@),
{
    if daily_signal_count >= risk.max_daily_buy_count {
        return err_text("하루 최대 신규 매수 신호 수 초과");
    }
    if already_signaled {
        return err_text("동일 종목 하루 중복 신호 방지");
    }
    match is_after_no_new_buy(now, risk) {
        Err(e) => {
            return Err(e);
        },
        Ok(after) => {
            if after {
                return err_text("15:10 이후 신규 매수 금지");
            }
        },
    }
    if risk.max_spread_rate.less(&spread_rate(quote)) {
        return err_text("호가 스프레드 초과");
    }
    if risk.max_intraday_rise_rate.less(&intraday_rise_rate(quote)) {
        return err_text("당일 상승률 제한 초과");
    }
    if quote.is_vi_expected {
        return err_text("VI 직전 또는 VI 발동 추정 종목 제외");
    }
    Ok(())
}

/// Stops new signals once the account's daily loss rate is at or below the limit.
pub fn daily_loss_guard(daily_loss_rate: Option<Dec>, max_daily_loss_rate: Dec) -> (r: Result<
    (),
    String,
>)
    requires
        daily_loss_rate matches Some(d) ==> d.wf(),
        max_daily_loss_rate.wf(),
    ensures
        r is Err <==> (daily_loss_rate matches Some(d) && !max_daily_loss_rate.lt(d)),
        r is Err ==> r->Err_0@ == "전체 계좌 기준 일손실 제한 도달"@,
{
    let reached = match daily_loss_rate {
        Some(rate) => !max_daily_loss_rate.less(&rate),
        None => false,
    };
    if reached {
        return err_text("전체 계좌 기준 일손실 제한 도달");
    }
    Ok(())
}

/// Once the day's signals reach the limit no new signal passes, and a stock that already
/// signaled today never signals again that day.
pub proof fn risk_gate_limits(
    quote: CurrentQuote,
    risk: RiskSection,
    daily_signal_count: i64,
    already_signaled: bool,
    now: TimeOfDay,
)
    ensures
        daily_signal_count >= risk.max_daily_buy_count ==> risk_outcome(
            quote,
            risk,
            daily_signal_count,
            already_signaled,
            now,
        ) == Err::<(), Seq<char>>("하루 최대 신규 매수 신호 수 초과"@),
        daily_signal_count < risk.max_daily_buy_count && already_signaled ==> risk_outcome(
            quote,
            risk,
            daily_signal_count,
            already_signaled,
            now,
        ) == Err::<(), Seq<char>>("동일 종목 하루 중복 신호 방지"@),
        already_signaled ==> risk_outcome(quote, risk, daily_signal_count, already_signaled, now)
            is Err,
{
}


/// The risk gate lets a new signal through exactly when: the day's signals are below the
/// daily limit; the stock has no signal yet today; the cut-off time parses and `now` is
/// before it; the bid-ask spread over the current price (999999 when that price is zero)
/// is within the maximum spread rate; the rise `(current - prev_close) / prev_close` over
/// the previous close (zero when that close is zero) is within the maximum intraday rise
/// rate; and no volatility interruption is expected.
pub proof fn risk_gate_passes_exactly_when(
    quote: CurrentQuote,
    risk: RiskSection,
    daily_signal_count: i64,
    already_signaled: bool,
    now: TimeOfDay,
)
    ensures
        risk_outcome(quote, risk, daily_signal_count, already_signaled, now) is Ok <==> {
            &&& daily_signal_count < risk.max_daily_buy_count
            &&& !already_signaled
            &&& after_cutoff(now, risk.no_new_buy_after@) == Ok::<bool, Seq<char>>(false)
            &&& quote.current_price.mantissa == 0 ==> int_dec(999_999).le(risk.max_spread_rate)
            &&& quote.current_price.mantissa != 0 ==> dec_of(
                rust_decimal_div(
                    if quote.bid_price.le(quote.ask_price) {
                        rust_decimal_sub(quote.ask_price@, quote.bid_price@)
                    } else {
                        rust_decimal_sub(quote.bid_price@, quote.ask_price@)
                    },
                    quote.current_price@,
                ),
            ).le(risk.max_spread_rate)
            &&& quote.prev_close.mantissa == 0 ==> int_dec(0).le(risk.max_intraday_rise_rate)
            &&& quote.prev_close.mantissa != 0 ==> dec_of(
                rust_decimal_div(
                    rust_decimal_sub(quote.current_price@, quote.prev_close@),
                    quote.prev_close@,
                ),
            ).le(risk.max_intraday_rise_rate)
            &&& !quote.is_vi_expected
        },
{
}

} // verus!
