//! Which stocks may become candidates.
use vstd::prelude::*;
use crate::config::StrategySection;
use crate::decimal::{Dec, int_dec};
use crate::domain::{FinancialRatio, InvestorFlowDaily, OhlcvDaily, StockBasic};
use super::scoring::{
    amount_sums_fit, average_amount_of, average_trade_amount, change_computable,
    count_foreign_buy_days, count_institution_buy_days, fits_i64, foreign_buy_days,
    foreign_net_sum, foreign_sums_fit, inst_buy_days, inst_net_sum, inst_sums_fit,
    prev_day_rise_rate, prev_day_rise_rate_of, rise_rate, rise_rate_of, sum_foreign_net_buy,
    sum_institution_net_buy, flow_total, buying_days, lemma_flow_totals,
};

verus! {

/// Why a stock is excluded outright, checked in this order; nothing when none applies.
pub open spec fn exclusion_reason(stock: StockBasic) -> Option<Seq<char>> {
    if stock.is_administrative_issue {
        Some("관리종목 제외"@)
    } else if stock.is_trading_halted {
        Some("거래정지 제외"@)
    } else if stock.is_warning {
        Some("투자경고/위험 제외"@)
    } else if stock.is_preferred {
        Some("우선주 제외"@)
    } else if stock.is_etf {
        Some("ETF 제외"@)
    } else if stock.is_etn {
        Some("ETN 제외"@)
    } else if stock.is_spac {
        Some("스팩 제외"@)
    } else {
        None
    }
}

/// The reason a stock is excluded: administrative issue, trading halt, investment
/// warning, preferred share, ETF, ETN or SPAC.
pub fn stock_is_excluded(stock: &StockBasic) -> (r: Option<&'static str>)
    ensures
        r is Some <==> exclusion_reason(*stock) is Some,
        r is Some ==> r->0@ == exclusion_reason(*stock)->0,
        r is Some <==> (stock.is_administrative_issue || stock.is_trading_halted
            || stock.is_warning || stock.is_preferred || stock.is_etf || stock.is_etn
            || stock.is_spac),
{
    if stock.is_administrative_issue {
        return Some("관리종목 제외");
    }
    if stock.is_trading_halted {
        return Some("거래정지 제외");
    }
    if stock.is_warning {
        return Some("투자경고/위험 제외");
    }
    if stock.is_preferred {
        return Some("우선주 제외");
    }
    if stock.is_etf {
        return Some("ETF 제외");
    }
    if stock.is_etn {
        return Some("ETN 제외");
    }
    if stock.is_spac {
        return Some("스팩 제외");
    }
    None
}

pub open spec fn unwrap_rate(r: Option<Dec>) -> Dec {
    match r {
        Some(v) => v,
        None => int_dec(0),
    }
}

pub open spec fn unwrap_amount(a: Option<int>) -> int {
    match a {
        Some(v) => v,
        None => 0,
    }
}

/// The outcome of the candidate filters: the first rule that fails, or success.
pub open spec fn filter_outcome(
    stock: StockBasic,
    flows: Seq<InvestorFlowDaily>,
    ohlcv: Seq<OhlcvDaily>,
    financial: Option<&FinancialRatio>,
    market_cap: Option<i64>,
    strategy: StrategySection,
) -> Result<(), Seq<char>> {
    let inst_sum = inst_net_sum(flows);
    let foreign_sum = foreign_net_sum(flows);
    let cap = match market_cap {
        Some(c) => c as int,
        None => 0,
    };
    if exclusion_reason(stock) is Some {
        Err(exclusion_reason(stock)->0)
    } else if flows.len() < strategy.lookback_days {
        Err("수급 데이터 부족"@)
    } else if ohlcv.len() < 20 {
        Err("OHLCV 데이터 부족"@)
    } else if (inst_buy_days(flows) as i32) < strategy.min_institution_buy_days {
        Err("기관 연속 순매수 일수 부족"@)
    } else if (foreign_buy_days(flows) as i32) < strategy.min_foreign_buy_days {
        Err("외국인 연속 순매수 일수 부족"@)
    } else if inst_sum <= 0 || foreign_sum <= 0 {
        Err("기관/외국인 누적 순매수 금액 부족"@)
    } else if inst_sum + foreign_sum < strategy.min_total_net_buy_amt_5d {
        Err("5일 누적 순매수 금액 부족"@)
    } else if cap < strategy.min_market_cap {
        Err("시가총액 부족"@)
    } else if unwrap_amount(average_amount_of(ohlcv, 20)) < strategy.min_avg_trade_amount_20d {
        Err("20일 평균 거래대금 부족"@)
    } else if strategy.max_rise_rate_5d.lt(unwrap_rate(rise_rate_of(ohlcv, 5))) {
        Err("최근 5일 상승률 과다"@)
    } else if strategy.max_prev_day_rise_rate.lt(unwrap_rate(prev_day_rise_rate_of(ohlcv))) {
        Err("전일 상승률 과다"@)
    } else if financial matches Some(f) && f.capital_impairment == Some(true) {
        Err("자본잠식 제외"@)
    } else {
        Ok(())
    }
}

/// What the filters need of their inputs to stay clear of overflow.
pub open spec fn filters_computable(
    flows: Seq<InvestorFlowDaily>,
    ohlcv: Seq<OhlcvDaily>,
    strategy: StrategySection,
) -> bool {
    &&& strategy.wf()
    &&& inst_sums_fit(flows)
    &&& foreign_sums_fit(flows)
    &&& (inst_net_sum(flows) > 0 && foreign_net_sum(flows) > 0) ==> fits_i64(
        inst_net_sum(flows) + foreign_net_sum(flows),
    )
    &&& ohlcv.len() <= i64::MAX
    &&& amount_sums_fit(ohlcv, 20)
    &&& ohlcv.len() >= 5 ==> change_computable(ohlcv[ohlcv.len() - 5].close_price, ohlcv.last().close_price)
    &&& ohlcv.len() >= 2 ==> change_computable(ohlcv[ohlcv.len() - 2].close_price, ohlcv.last().close_price)
}

fn err_text(text: &str) -> (r: Result<(), String>)
    ensures
        r == Err::<(), String>(r->Err_0),
        r->Err_0@ == text@,
{
    Err(String::from_str(text))
}

/// Checks a stock against the screen: exclusions, enough data, institutional and
/// foreign buying days and amounts, market capitalisation, traded amount, recent rises
/// and impaired capital. Returns the first failing rule's reason. An excluded stock is
/// refused at once, whatever its flows and candles.
pub fn passes_candidate_filters(
    stock: &StockBasic,
    flows: &[InvestorFlowDaily],
    ohlcv: &[OhlcvDaily],
    financial: Option<&FinancialRatio>,
    market_cap: Option<i64>,
    strategy: &StrategySection,
) -> (r: Result<(), String>)
    requires
        exclusion_reason(*stock) is None ==> filters_computable(flows@, ohlcv@, *strategy),
    ensures
        r is Ok <==> filter_outcome(*stock, flows@, ohlcv@, financial, market_cap, *strategy) is Ok,
        r is Err ==> filter_outcome(*stock, flows@, ohlcv@, financial, market_cap, *strategy)
            == Err::<(), Seq<char>>(r->Err_0@),
{
    match stock_is_excluded(stock) {
        Some(reason) => {
            return err_text(reason);
        },
        None => {},
    }
    if flows.len() < strategy.lookback_days {
        return err_text("수급 데이터 부족");
    }
    if ohlcv.len() < 20 {
        return err_text("OHLCV 데이터 부족");
    }
    let inst_days = count_institution_buy_days(flows);
    let foreign_days = count_foreign_buy_days(flows);
    if inst_days < strategy.min_institution_buy_days {
        return err_text("기관 연속 순매수 일수 부족");
    }
    if foreign_days < strategy.min_foreign_buy_days {
        return err_text("외국인 연속 순매수 일수 부족");
    }
    let inst_sum = sum_institution_net_buy(flows);
    let foreign_sum = sum_foreign_net_buy(flows);
    if inst_sum <= 0 || foreign_sum <= 0 {
        return err_text("기관/외국인 누적 순매수 금액 부족");
    }
    if inst_sum + foreign_sum < strategy.min_total_net_buy_amt_5d {
        return err_text("5일 누적 순매수 금액 부족");
    }
    let cap = match market_cap {
        Some(c) => c,
        None => 0,
    };
    if cap < strategy.min_market_cap {
        return err_text("시가총액 부족");
    }
    let avg = match average_trade_amount(ohlcv, 20) {
        Some(v) => v,
        None => 0,
    };
    if avg < strategy.min_avg_trade_amount_20d {
        return err_text("20일 평균 거래대금 부족");
    }
    let rise5 = match rise_rate(ohlcv, 5) {
        Some(v) => v,
        None => Dec::zero(),
    };
    if strategy.max_rise_rate_5d.less(&rise5) {
        return err_text("최근 5일 상승률 과다");
    }
    let rise1 = match prev_day_rise_rate(ohlcv) {
        Some(v) => v,
        None => Dec::zero(),
    };
    if strategy.max_prev_day_rise_rate.less(&rise1) {
        return err_text("전일 상승률 과다");
    }
    let impaired = match financial {
        Some(f) => f.capital_impairment == Some(true),
        None => false,
    };
    if impaired {
        return err_text("자본잠식 제외");
    }
    Ok(())
}

/// The market capitalisation enters the screen only as a minimum: a stock that passes
/// with one capitalisation passes with any larger one.
pub proof fn larger_market_cap_still_passes(
    stock: StockBasic,
    flows: Seq<InvestorFlowDaily>,
    ohlcv: Seq<OhlcvDaily>,
    financial: Option<&FinancialRatio>,
    cap: i64,
    larger_cap: i64,
    strategy: StrategySection,
)
    requires
        filter_outcome(stock, flows, ohlcv, financial, Some(cap), strategy) is Ok,
        cap <= larger_cap,
    ensures
        filter_outcome(stock, flows, ohlcv, financial, Some(larger_cap), strategy) is Ok,
{
}


/// A stock passes the screen exactly when: it carries none of the exclusion flags; it has
/// at least `lookback_days` flow days and 20 candles; institutions and foreigners each
/// bought on enough days; institutions and foreigners each bought more than they sold over
/// the flows, together by at least the minimum total; its market capitalisation (zero when
/// unknown) and its 20-day mean traded amount reach their minimums; neither its five-day
/// nor its previous-day rise (zero when there is none) passes its maximum; and its capital
/// is not impaired.
pub proof fn screen_passes_exactly_when(
    stock: StockBasic,
    flows: Seq<InvestorFlowDaily>,
    ohlcv: Seq<OhlcvDaily>,
    financial: Option<&FinancialRatio>,
    market_cap: Option<i64>,
    strategy: StrategySection,
)
    ensures
        filter_outcome(stock, flows, ohlcv, financial, market_cap, strategy) is Ok <==> {
            &&& !(stock.is_administrative_issue || stock.is_trading_halted || stock.is_warning
                || stock.is_preferred || stock.is_etf || stock.is_etn || stock.is_spac)
            &&& flows.len() >= strategy.lookback_days
            &&& ohlcv.len() >= 20
            &&& buying_days(flows, true) as i32 >= strategy.min_institution_buy_days
            &&& buying_days(flows, false) as i32 >= strategy.min_foreign_buy_days
            &&& flow_total(flows, true) > 0
            &&& flow_total(flows, false) > 0
            &&& flow_total(flows, true) + flow_total(flows, false)
                >= strategy.min_total_net_buy_amt_5d
            &&& (match market_cap {
                Some(c) => c as int,
                None => 0,
            }) >= strategy.min_market_cap
            &&& (match average_amount_of(ohlcv, 20) {
                Some(a) => a,
                None => 0,
            }) >= strategy.min_avg_trade_amount_20d
            &&& (match rise_rate_of(ohlcv, 5) {
                Some(r) => r,
                None => int_dec(0),
            }).le(strategy.max_rise_rate_5d)
            &&& (match prev_day_rise_rate_of(ohlcv) {
                Some(r) => r,
                None => int_dec(0),
            }).le(strategy.max_prev_day_rise_rate)
            &&& !(financial matches Some(f) && f.capital_impairment == Some(true))
        },
{
    lemma_flow_totals(flows);
}

} // verus!
