use chrono::{Datelike, NaiveDate};
use rust_decimal::Decimal;

use kis_supply_bot::clock::{Date, TimeOfDay};
use kis_supply_bot::config::AppConfig;
use kis_supply_bot::decimal::Dec;
use kis_supply_bot::domain::{
    CandidateStatus, CurrentQuote, InvestorFlowDaily, OhlcvDaily, StockBasic, StrategyType,
    TradeCandidate,
};
use kis_supply_bot::strategy::filters::{passes_candidate_filters, stock_is_excluded};
use kis_supply_bot::strategy::monitor::{
    breakout_signal, evaluate_signal, opening_signal, pullback_signal,
};
use kis_supply_bot::strategy::risk::{
    daily_loss_guard, intraday_rise_rate, is_after_no_new_buy, risk_allows_new_signal, spread_rate,
};
use kis_supply_bot::strategy::scoring::{
    average_trade_amount, count_foreign_buy_days, count_institution_buy_days, final_score,
    liquidity_score, moving_average, prev_day_rise_rate, rise_rate, risk_score, sum_foreign_net_buy,
    sum_institution_net_buy, supply_score, trend_score,
};

fn dec(x: Decimal) -> Dec {
    Dec { mantissa: x.mantissa(), scale: x.scale(), negative: x.is_sign_negative() }
}

fn rd(x: Dec) -> Decimal {
    let mut a = Decimal::from_i128_with_scale(x.mantissa, x.scale);
    a.set_sign_negative(x.negative);
    a
}

fn day(y: i32, m: u32, d: u32) -> Date {
    Date { days_from_ce: NaiveDate::from_ymd_opt(y, m, d).unwrap().num_days_from_ce() }
}

fn plain_stock(code: &str) -> StockBasic {
    StockBasic {
        stock_code: code.to_string(),
        stock_name: code.to_string(),
        market: None,
        sector: None,
        is_preferred: false,
        is_etf: false,
        is_etn: false,
        is_spac: false,
        is_trading_halted: false,
        is_administrative_issue: false,
        is_warning: false,
    }
}

#[test]
fn excludes_flagged_stock() {
    let mut stock = StockBasic {
        stock_code: "X".to_string(),
        stock_name: "X".to_string(),
        market: None,
        sector: None,
        is_preferred: false,
        is_etf: true,
        is_etn: false,
        is_spac: false,
        is_trading_halted: false,
        is_administrative_issue: false,
        is_warning: false,
    };
    assert!(stock_is_excluded(&stock).is_some());
    stock.is_etf = false;
    assert!(stock_is_excluded(&stock).is_none());
}

#[test]
fn exclusion_reasons_follow_flag_order() {
    let mut stock = plain_stock("X");
    stock.is_preferred = true;
    stock.is_administrative_issue = true;
    assert_eq!(stock_is_excluded(&stock), Some("관리종목 제외"));
    stock.is_administrative_issue = false;
    assert_eq!(stock_is_excluded(&stock), Some("우선주 제외"));
    stock.is_preferred = false;
    stock.is_spac = true;
    assert_eq!(stock_is_excluded(&stock), Some("스팩 제외"));
}

fn screen_flows(code: &str, inst: i64, foreign: i64) -> Vec<InvestorFlowDaily> {
    (0..5)
        .map(|_| InvestorFlowDaily {
            trade_date: day(2026, 5, 12),
            stock_code: code.to_string(),
            institution_net_buy_amt: inst,
            foreign_net_buy_amt: foreign,
            individual_net_buy_amt: -(inst + foreign),
            institution_net_buy_qty: None,
            foreign_net_buy_qty: None,
            individual_net_buy_qty: None,
        })
        .collect()
}

fn screen_rows(code: &str) -> Vec<OhlcvDaily> {
    (0..20)
        .map(|idx| OhlcvDaily {
            trade_date: day(2026, 5, 12),
            stock_code: code.to_string(),
            open_price: dec(Decimal::from(10_000 + idx)),
            high_price: dec(Decimal::from(10_050 + idx)),
            low_price: dec(Decimal::from(9_950 + idx)),
            close_price: dec(Decimal::from(10_000 + idx)),
            volume: 1000,
            trade_amount: 10_000_000_000,
        })
        .collect()
}

#[test]
fn passes_basic_candidate_filters() {
    let stock = StockBasic {
        stock_code: "005930".to_string(),
        stock_name: "삼성전자".to_string(),
        market: None,
        sector: None,
        is_preferred: false,
        is_etf: false,
        is_etn: false,
        is_spac: false,
        is_trading_halted: false,
        is_administrative_issue: false,
        is_warning: false,
    };
    let flows = screen_flows(&stock.stock_code, 1_000_000_000, 1_000_000_000);
    let rows = screen_rows(&stock.stock_code);
    let strategy = AppConfig::default().strategy;
    assert!(passes_candidate_filters(&stock, &flows, &rows, None, Some(1_000_000_000_000), &strategy).is_ok());
}

#[test]
fn filter_reports_first_failing_rule() {
    let stock = plain_stock("005930");
    let strategy = AppConfig::default().strategy;
    let rows = screen_rows("005930");
    let short_flows = screen_flows("005930", 1, 1)[..3].to_vec();
    assert_eq!(
        passes_candidate_filters(&stock, &short_flows, &rows, None, Some(1_000_000_000_000), &strategy),
        Err("수급 데이터 부족".to_string())
    );
    let selling = screen_flows("005930", -1_000_000_000, 1_000_000_000);
    assert_eq!(
        passes_candidate_filters(&stock, &selling, &rows, None, Some(1_000_000_000_000), &strategy),
        Err("기관 연속 순매수 일수 부족".to_string())
    );
    let flows = screen_flows("005930", 1_000_000_000, 1_000_000_000);
    assert_eq!(
        passes_candidate_filters(&stock, &flows, &rows, None, Some(1), &strategy),
        Err("시가총액 부족".to_string())
    );
    assert_eq!(
        passes_candidate_filters(&stock, &flows, &rows[..10], None, Some(1_000_000_000_000), &strategy),
        Err("OHLCV 데이터 부족".to_string())
    );
}

fn candidate(strategy_type: StrategyType) -> TradeCandidate {
    TradeCandidate {
        trade_date: day(2026, 5, 12),
        stock_code: "005930".to_string(),
        stock_name: "삼성전자".to_string(),
        supply_score: dec(Decimal::from(90)),
        liquidity_score: dec(Decimal::from(90)),
        trend_score: dec(Decimal::from(90)),
        risk_score: dec(Decimal::from(90)),
        final_score: dec(Decimal::from(90)),
        inst_buy_days: 5,
        foreign_buy_days: 5,
        inst_net_buy_amt_5d: 1,
        foreign_net_buy_amt_5d: 1,
        total_net_buy_amt_5d: 2,
        market_cap: Some(1),
        avg_trade_amount_20d: Some(1),
        prev_close: dec(Decimal::from(100)),
        prev_high: dec(Decimal::from(101)),
        prev_low: dec(Decimal::from(99)),
        ma5: Some(dec(Decimal::from(99))),
        ma20: Some(dec(Decimal::from(98))),
        breakout_price: Some(dec(Decimal::new(101101, 3))),
        pullback_price: Some(dec(Decimal::from(99))),
        stop_loss_price: Some(dec(Decimal::from(98))),
        target_price: Some(dec(Decimal::from(103))),
        strategy_type,
        status: CandidateStatus::Ready,
    }
}

fn quote(price: i64) -> CurrentQuote {
    CurrentQuote {
        stock_code: "005930".to_string(),
        stock_name: "삼성전자".to_string(),
        current_price: dec(Decimal::from(price)),
        open_price: dec(Decimal::from(100)),
        high_price: dec(Decimal::from(price)),
        low_price: dec(Decimal::from(99)),
        prev_close: dec(Decimal::from(100)),
        accumulated_trade_amount: 1,
        expected_trade_amount_ratio: dec(Decimal::from(160)),
        execution_strength: dec(Decimal::from(124)),
        bid_price: dec(Decimal::new(price * 100 - 10, 2)),
        ask_price: dec(Decimal::new(price * 100 + 10, 2)),
        vwap: Some(dec(Decimal::from(100))),
        is_vi_expected: false,
    }
}

#[test]
fn detects_pullback_and_breakout() {
    assert!(pullback_signal(&candidate(StrategyType::Pullback), &quote(100)).is_some());
    assert!(breakout_signal(&candidate(StrategyType::Breakout), &quote(102)).is_some());
}

#[test]
fn pullback_reasons_are_exact() {
    let reasons = pullback_signal(&candidate(StrategyType::Pullback), &quote(100)).unwrap();
    assert_eq!(
        reasons,
        vec![
            "눌림목 가격 구간 진입".to_string(),
            "체결강도 124".to_string(),
            "거래대금 예상 대비 160%".to_string(),
            "호가 스프레드 0.20%".to_string(),
        ]
    );
}

#[test]
fn breakout_needs_price_above_previous_high() {
    assert!(breakout_signal(&candidate(StrategyType::Breakout), &quote(101)).is_none());
    let mut below_vwap = quote(102);
    below_vwap.vwap = Some(dec(Decimal::from(103)));
    assert!(breakout_signal(&candidate(StrategyType::Breakout), &below_vwap).is_none());
}

#[test]
fn opening_signal_needs_time_gap_and_strength() {
    let c = candidate(StrategyType::Opening);
    let q = quote(101);
    assert!(opening_signal(&c, &q, TimeOfDay::from_hms(9, 2, 0)).is_none());
    let reasons = opening_signal(&c, &q, TimeOfDay::from_hms(9, 5, 0)).unwrap();
    assert_eq!(reasons, vec!["시초가 조건 통과".to_string(), "체결강도 124".to_string()]);
}

#[test]
fn evaluate_signal_respects_window_and_switches() {
    let strategy = AppConfig::default().strategy;
    let c = candidate(StrategyType::Pullback);
    let q = quote(100);
    assert!(evaluate_signal(&c, &q, TimeOfDay::from_hms(9, 5, 0), &strategy).is_none());
    assert!(evaluate_signal(&c, &q, TimeOfDay::from_hms(10, 0, 0), &strategy).is_some());
    assert!(evaluate_signal(&c, &q, TimeOfDay::from_hms(15, 11, 0), &strategy).is_none());
    let opening = candidate(StrategyType::Opening);
    assert!(evaluate_signal(&opening, &quote(101), TimeOfDay::from_hms(10, 0, 0), &strategy).is_none());
}

fn risk_quote() -> CurrentQuote {
    CurrentQuote {
        stock_code: "005930".to_string(),
        stock_name: "삼성전자".to_string(),
        current_price: dec(Decimal::from(100)),
        open_price: dec(Decimal::from(99)),
        high_price: dec(Decimal::from(101)),
        low_price: dec(Decimal::from(98)),
        prev_close: dec(Decimal::from(99)),
        accumulated_trade_amount: 1,
        expected_trade_amount_ratio: dec(Decimal::from(100)),
        execution_strength: dec(Decimal::from(120)),
        bid_price: dec(Decimal::new(999, 1)),
        ask_price: dec(Decimal::new(1001, 1)),
        vwap: Some(dec(Decimal::from(99))),
        is_vi_expected: false,
    }
}

#[test]
fn blocks_daily_signal_limit_and_duplicate() {
    let risk = AppConfig::default().risk;
    let now = TimeOfDay::from_hms(10, 0, 0);
    assert!(risk_allows_new_signal(&risk_quote(), &risk, 3, false, now).is_err());
    assert!(risk_allows_new_signal(&risk_quote(), &risk, 0, true, now).is_err());
}

#[test]
fn risk_gate_reasons_in_order() {
    let risk = AppConfig::default().risk;
    let now = TimeOfDay::from_hms(10, 0, 0);
    assert_eq!(
        risk_allows_new_signal(&risk_quote(), &risk, 3, true, now),
        Err("하루 최대 신규 매수 신호 수 초과".to_string())
    );
    assert_eq!(
        risk_allows_new_signal(&risk_quote(), &risk, 0, true, now),
        Err("동일 종목 하루 중복 신호 방지".to_string())
    );
    assert_eq!(
        risk_allows_new_signal(&risk_quote(), &risk, 0, false, TimeOfDay::from_hms(15, 10, 0)),
        Err("15:10 이후 신규 매수 금지".to_string())
    );
    assert_eq!(risk_allows_new_signal(&risk_quote(), &risk, 0, false, now), Ok(()));
    let mut vi = risk_quote();
    vi.is_vi_expected = true;
    assert_eq!(
        risk_allows_new_signal(&vi, &risk, 0, false, now),
        Err("VI 직전 또는 VI 발동 추정 종목 제외".to_string())
    );
    let mut wide = risk_quote();
    wide.ask_price = dec(Decimal::from(101));
    assert_eq!(
        risk_allows_new_signal(&wide, &risk, 0, false, now),
        Err("호가 스프레드 초과".to_string())
    );
}

#[test]
fn spread_and_intraday_rise() {
    assert_eq!(rd(spread_rate(&risk_quote())), Decimal::new(2, 3));
    let mut q = risk_quote();
    q.current_price = dec(Decimal::ZERO);
    assert_eq!(rd(spread_rate(&q)), Decimal::from(999_999));
    let mut up = risk_quote();
    up.prev_close = dec(Decimal::from(80));
    assert_eq!(rd(intraday_rise_rate(&up)), Decimal::new(25, 2));
    up.prev_close = dec(Decimal::ZERO);
    assert_eq!(rd(intraday_rise_rate(&up)), Decimal::ZERO);
}

#[test]
fn cutoff_time_parses_and_compares() {
    let mut risk = AppConfig::default().risk;
    assert_eq!(is_after_no_new_buy(TimeOfDay::from_hms(15, 9, 59), &risk), Ok(false));
    assert_eq!(is_after_no_new_buy(TimeOfDay::from_hms(15, 10, 0), &risk), Ok(true));
    risk.no_new_buy_after = "nonsense".to_string();
    assert!(is_after_no_new_buy(TimeOfDay::from_hms(10, 0, 0), &risk).is_err());
}

#[test]
fn daily_loss_guard_stops_at_limit() {
    let limit = dec(Decimal::new(-3, 2));
    assert!(daily_loss_guard(None, limit).is_ok());
    assert!(daily_loss_guard(Some(dec(Decimal::new(-1, 2))), limit).is_ok());
    assert_eq!(
        daily_loss_guard(Some(dec(Decimal::new(-3, 2))), limit),
        Err("전체 계좌 기준 일손실 제한 도달".to_string())
    );
}

fn flow(inst: i64, foreign: i64) -> InvestorFlowDaily {
    InvestorFlowDaily {
        trade_date: day(2026, 5, 12),
        stock_code: "005930".to_string(),
        institution_net_buy_amt: inst,
        foreign_net_buy_amt: foreign,
        individual_net_buy_amt: -(inst + foreign),
        institution_net_buy_qty: None,
        foreign_net_buy_qty: None,
        individual_net_buy_qty: None,
    }
}

fn candle(close: i64, amount: i64) -> OhlcvDaily {
    OhlcvDaily {
        trade_date: day(2026, 5, 12),
        stock_code: "005930".to_string(),
        open_price: dec(Decimal::from(close - 10)),
        high_price: dec(Decimal::from(close + 20)),
        low_price: dec(Decimal::from(close - 20)),
        close_price: dec(Decimal::from(close)),
        volume: 1000,
        trade_amount: amount,
    }
}

#[test]
fn counts_buy_days_and_sums() {
    let flows = vec![flow(1, 1), flow(1, -1), flow(-1, 1), flow(1, 1), flow(1, 1)];
    assert_eq!(count_institution_buy_days(&flows), 4);
    assert_eq!(count_foreign_buy_days(&flows), 4);
    assert_eq!(sum_institution_net_buy(&flows), 3);
    assert_eq!(sum_foreign_net_buy(&flows), 3);
}

#[test]
fn calculates_moving_average_and_trade_amount() {
    let rows = (1..=20).map(|idx| candle(idx, idx * 100)).collect::<Vec<_>>();
    assert_eq!(moving_average(&rows, 5).map(rd), Some(Decimal::from(18)));
    assert_eq!(moving_average(&rows, 20).map(rd), Some(Decimal::new(105, 1)));
    assert_eq!(average_trade_amount(&rows, 20), Some(1050));
}

#[test]
fn averages_need_enough_rows() {
    let rows = (1..=3).map(|idx| candle(idx, -idx * 101)).collect::<Vec<_>>();
    assert_eq!(moving_average(&rows, 5).map(rd), None);
    assert_eq!(average_trade_amount(&rows, 5), None);
    assert_eq!(average_trade_amount(&rows, 2), Some(-252));
}

#[test]
fn rise_rates() {
    let rows = (1..=5).map(|idx| candle(100 * idx, 1)).collect::<Vec<_>>();
    assert_eq!(rise_rate(&rows, 5).map(rd), Some(Decimal::from(4)));
    assert_eq!(rise_rate(&rows, 1).map(rd), None);
    assert_eq!(prev_day_rise_rate(&rows).map(rd), Some(Decimal::new(25, 2)));
    assert_eq!(prev_day_rise_rate(&rows[..1]).map(rd), None);
}

#[test]
fn calculates_scores() {
    let rows = (1..=20)
        .map(|idx| candle(10_000 + idx * 10, 30_000_000_000))
        .collect::<Vec<_>>();
    assert!(rd(supply_score(5, 5, 12_000_000_000, Some(1_000_000_000_000))) > Decimal::from(80));
    assert!(rd(liquidity_score(&rows)) >= Decimal::from(60));
    assert!(rd(trend_score(&rows, moving_average(&rows, 5), moving_average(&rows, 20))) > Decimal::from(60));
    assert!(rd(risk_score(None, rows.last(), rows.get(18))) > Decimal::from(70));
    assert!(
        rd(final_score(
            dec(Decimal::from(90)),
            dec(Decimal::from(70)),
            dec(Decimal::from(80)),
            dec(Decimal::from(100))
        )) > Decimal::from(80)
    );
}

#[test]
fn score_values_are_exact() {
    assert_eq!(rd(supply_score(5, 5, 12_000_000_000, Some(1_000_000_000_000))), Decimal::from(90));
    assert_eq!(rd(supply_score(3, 4, 3_000_000_000, None)), Decimal::from(45));
    assert_eq!(rd(supply_score(5, 5, 12_000_000_000, Some(100_000_000_000))), Decimal::from(90));
    assert_eq!(
        rd(final_score(
            dec(Decimal::from(90)),
            dec(Decimal::from(70)),
            dec(Decimal::from(80)),
            dec(Decimal::from(100))
        )),
        Decimal::new(8550, 2)
    );
    assert_eq!(
        rd(final_score(
            dec(Decimal::from(100)),
            dec(Decimal::from(100)),
            dec(Decimal::from(100)),
            dec(Decimal::from(100))
        )),
        Decimal::from(100)
    );
}

#[test]
fn scores_stay_within_bounds() {
    let rows = (1..=20).map(|idx| candle(10_000 + idx * 10, 1)).collect::<Vec<_>>();
    assert_eq!(rd(liquidity_score(&rows)), Decimal::from(10));
    assert_eq!(rd(trend_score(&[], None, None)), Decimal::ZERO);
    let hot = (1..=20).map(|idx| candle(100 * idx, 1)).collect::<Vec<_>>();
    let t = rd(trend_score(&hot, moving_average(&hot, 5), moving_average(&hot, 20)));
    assert!(t >= Decimal::ZERO && t <= Decimal::from(100));
    assert_eq!(rd(risk_score(None, None, None)), Decimal::from(100));
}

#[test]
fn excluded_stock_refused_without_data() {
    let mut stock = plain_stock("X");
    stock.is_spac = true;
    let strategy = AppConfig::default().strategy;
    assert_eq!(
        passes_candidate_filters(&stock, &[], &[], None, None, &strategy),
        Err("스팩 제외".to_string())
    );
}

#[test]
fn larger_market_cap_passes_too() {
    let stock = plain_stock("005930");
    let strategy = AppConfig::default().strategy;
    let flows = screen_flows("005930", 1_000_000_000, 1_000_000_000);
    let rows = screen_rows("005930");
    assert!(passes_candidate_filters(&stock, &flows, &rows, None, Some(100_000_000_000), &strategy).is_ok());
    assert!(passes_candidate_filters(&stock, &flows, &rows, None, Some(900_000_000_000_000), &strategy).is_ok());
}

#[test]
fn final_score_of_fractional_and_zero_scores() {
    let zero = dec(Decimal::ZERO);
    let z = final_score(zero, zero, zero, zero);
    assert_eq!((z.mantissa, z.scale), (0, 0));
    let x = dec(Decimal::new(7050, 2));
    let r = final_score(x, x, x, x);
    assert_eq!((r.mantissa, r.scale), (705000, 4));
    assert_eq!(rd(r), Decimal::new(705, 1));
    let r = final_score(dec(Decimal::new(9000, 2)), zero, dec(Decimal::new(5025, 2)), dec(Decimal::new(10000, 2)));
    assert_eq!(rd(r), Decimal::new(6555, 2));
    assert!(rd(r) >= Decimal::ZERO && rd(r) <= Decimal::from(100));
}

#[test]
fn supply_rises_with_total_without_cap() {
    let mut last = Decimal::ZERO;
    for total in [0, 1_000_000_000, 3_000_000_000, 5_000_000_000, 10_000_000_000, 50_000_000_000] {
        let s = rd(supply_score(4, 3, total, None));
        assert!(s >= last);
        last = s;
    }
    assert_eq!(last, Decimal::from(55));
}

#[test]
fn prev_day_rise_equals_two_row_rise() {
    let rows = (1..=6).map(|idx| candle(100 + 7 * idx, 1)).collect::<Vec<_>>();
    assert_eq!(prev_day_rise_rate(&rows).map(rd), rise_rate(&rows, 2).map(rd));
}

#[test]
fn final_score_of_mixed_scales_is_exact() {
    let r = final_score(
        dec(Decimal::from(90)),
        dec(Decimal::new(705, 1)),
        dec(Decimal::from(80)),
        dec(Decimal::from(60)),
    );
    assert_eq!(rd(r), Decimal::new(796, 1));
    assert_eq!(r.scale, 3);
    let r = final_score(
        dec(Decimal::new(12345, 3)),
        dec(Decimal::from(100)),
        dec(Decimal::ZERO),
        dec(Decimal::new(5, 1)),
    );
    // 12.345 * 0.45 + 100 * 0.20 + 0.5 * 0.15 = 5.55525 + 20 + 0.075
    assert_eq!(rd(r), Decimal::new(2563025, 5));
}

#[test]
fn monitoring_run_keeps_daily_limit_and_one_signal_per_stock() {
    let risk = AppConfig::default().risk;
    let now = TimeOfDay::from_hms(10, 0, 0);
    let codes = ["A", "B", "A", "C", "B", "D", "E"];
    let mut count: i64 = 1;
    let mut signaled: Vec<&str> = vec!["B"];
    let mut raised: Vec<&str> = Vec::new();
    for code in codes {
        let already = signaled.contains(&code);
        if risk_allows_new_signal(&risk_quote(), &risk, count, already, now).is_ok() {
            count += 1;
            signaled.push(code);
            raised.push(code);
        }
    }
    assert_eq!(raised, vec!["A", "C"]);
    assert_eq!(count, 3);
}
