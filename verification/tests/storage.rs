use chrono::{Datelike, NaiveDate};
use rust_decimal::Decimal;

use kis_supply_bot::clock::Date;
use kis_supply_bot::decimal::Dec;
use kis_supply_bot::domain::{CandidateStatus, InvestorFlowDaily, OhlcvDaily, StrategyType};
use kis_supply_bot::storage::{
    candidate_from_record, candidate_record, financial_from_record, flow_from_record, ohlcv_from_record,
    sort_by_trade_date, stock_from_record, CandidateRecord, FinancialRecord, FlowRecord,
    OhlcvRecord, StockRecord,
};

fn rd(x: Dec) -> Decimal {
    let mut a = Decimal::from_i128_with_scale(x.mantissa, x.scale);
    a.set_sign_negative(x.negative);
    a
}

fn day(y: i32, m: u32, d: u32) -> Date {
    Date { days_from_ce: NaiveDate::from_ymd_opt(y, m, d).unwrap().num_days_from_ce() }
}

fn record() -> CandidateRecord {
    CandidateRecord {
        trade_date: "2026-05-12".to_string(),
        stock_code: "005930".to_string(),
        stock_name: "삼성전자".to_string(),
        supply_score: "90".to_string(),
        liquidity_score: "70".to_string(),
        trend_score: "80".to_string(),
        risk_score: "100".to_string(),
        final_score: "85.50".to_string(),
        inst_buy_days: 5,
        foreign_buy_days: 4,
        inst_net_buy_amt_5d: 10,
        foreign_net_buy_amt_5d: 20,
        total_net_buy_amt_5d: 30,
        market_cap: Some(1_000),
        avg_trade_amount_20d: None,
        prev_close: "81200".to_string(),
        prev_high: "82000".to_string(),
        prev_low: "80500".to_string(),
        ma5: Some("80900.5".to_string()),
        ma20: None,
        breakout_price: None,
        pullback_price: None,
        stop_loss_price: None,
        target_price: None,
        strategy_type: "pullback".to_string(),
        status: "READY".to_string(),
    }
}

#[test]
fn reads_candidate_rows() {
    let c = candidate_from_record(record()).unwrap();
    assert_eq!(c.trade_date.days_from_ce, day(2026, 5, 12).days_from_ce);
    assert_eq!(rd(c.final_score), Decimal::new(855, 1));
    assert_eq!(c.ma5.map(rd), Some(Decimal::new(809005, 1)));
    assert!(c.ma20.is_none());
    assert_eq!(c.strategy_type, StrategyType::Pullback);
    assert_eq!(c.status, CandidateStatus::Ready);
    assert_eq!(c.foreign_buy_days, 4);
}

#[test]
fn candidate_row_errors_name_the_first_bad_column() {
    let mut bad = record();
    bad.trend_score = "n/a".to_string();
    bad.prev_low = "??".to_string();
    assert_eq!(candidate_from_record(bad).err(), Some("parse decimal: n/a".to_string()));
    let mut bad = record();
    bad.ma20 = Some("x".to_string());
    assert_eq!(candidate_from_record(bad).err(), Some("parse decimal: x".to_string()));
    let mut bad = record();
    bad.status = "DONE".to_string();
    assert!(candidate_from_record(bad).is_err());
    let mut bad = record();
    bad.trade_date = "2026/05/12".to_string();
    assert!(candidate_from_record(bad).is_err());
}

#[test]
fn reads_other_rows() {
    let s = stock_from_record(StockRecord {
        stock_code: "1".to_string(),
        stock_name: "n".to_string(),
        market: None,
        sector: Some("s".to_string()),
        is_preferred: 0,
        is_etf: 2,
        is_etn: 0,
        is_spac: 0,
        is_trading_halted: 1,
        is_administrative_issue: 0,
        is_warning: 0,
    });
    assert!(s.is_etf && s.is_trading_halted && !s.is_preferred);
    let row = ohlcv_from_record(OhlcvRecord {
        trade_date: "2026-05-11".to_string(),
        stock_code: "1".to_string(),
        open_price: "1.5".to_string(),
        high_price: "2".to_string(),
        low_price: "1".to_string(),
        close_price: "1.75".to_string(),
        volume: 3,
        trade_amount: 4,
    })
    .unwrap();
    assert_eq!(rd(row.close_price), Decimal::new(175, 2));
    assert_eq!(row.trade_date.days_from_ce, day(2026, 5, 11).days_from_ce);
    let flow = flow_from_record(FlowRecord {
        trade_date: "2026-05-11".to_string(),
        stock_code: "1".to_string(),
        institution_net_buy_amt: 1,
        foreign_net_buy_amt: 2,
        individual_net_buy_amt: -3,
        institution_net_buy_qty: None,
        foreign_net_buy_qty: Some(5),
        individual_net_buy_qty: None,
    })
    .unwrap();
    assert_eq!(flow.foreign_net_buy_qty, Some(5));
    let f = financial_from_record(FinancialRecord {
        stock_code: "1".to_string(),
        debt_ratio: Some("120.5".to_string()),
        operating_profit: None,
        quarterly_operating_profit: Some(-1),
        capital_impairment: Some(0),
    })
    .unwrap();
    assert_eq!(f.capital_impairment, Some(false));
    assert_eq!(f.debt_ratio.map(rd), Some(Decimal::new(1205, 1)));
    assert!(financial_from_record(FinancialRecord {
        stock_code: "1".to_string(),
        debt_ratio: Some("".to_string()),
        operating_profit: None,
        quarterly_operating_profit: None,
        capital_impairment: None,
    })
    .is_err());
}

fn candle(date: Date, tag: i64) -> OhlcvDaily {
    let one = Dec { mantissa: 1, scale: 0, negative: false };
    OhlcvDaily {
        trade_date: date,
        stock_code: "1".to_string(),
        open_price: one,
        high_price: one,
        low_price: one,
        close_price: one,
        volume: tag,
        trade_amount: 0,
    }
}

#[test]
fn rows_come_oldest_first() {
    let rows = vec![
        candle(day(2026, 5, 12), 1),
        candle(day(2026, 5, 8), 2),
        candle(day(2026, 5, 11), 3),
        candle(day(2026, 5, 8), 4),
    ];
    let sorted = sort_by_trade_date(rows);
    let tags: Vec<i64> = sorted.iter().map(|r| r.volume).collect();
    assert_eq!(tags, vec![2, 4, 3, 1]);
    let flows: Vec<InvestorFlowDaily> = sort_by_trade_date(Vec::new());
    assert!(flows.is_empty());
}

#[test]
fn strategy_and_status_names_round_trip() {
    for s in [StrategyType::Opening, StrategyType::Pullback, StrategyType::Breakout] {
        assert_eq!(StrategyType::from_str(s.as_str()), Ok(s));
    }
    for s in [
        CandidateStatus::Ready,
        CandidateStatus::Triggered,
        CandidateStatus::Ordered,
        CandidateStatus::Filled,
        CandidateStatus::Skipped,
        CandidateStatus::Expired,
    ] {
        assert_eq!(CandidateStatus::from_str(s.as_str()), Ok(s));
    }
    assert!(StrategyType::from_str("sideways").is_err());
}

#[test]
fn dates_stay_in_chrono_range() {
    assert!(Date::from_days(day(2026, 5, 12).days_from_ce).is_some());
    assert!(Date::from_days(i32::MAX).is_none());
    assert!(Date::from_days(i32::MIN).is_none());
}

#[test]
fn stored_candidate_reads_back() {
    let c = candidate_from_record(record()).unwrap();
    let rec = candidate_record(&c);
    assert_eq!(rec.trade_date, "2026-05-12");
    assert_eq!(rec.final_score, "85.50");
    assert_eq!(rec.strategy_type, "PULLBACK");
    let back = candidate_from_record(rec).unwrap();
    assert_eq!(back.trade_date.days_from_ce, c.trade_date.days_from_ce);
    assert_eq!((back.final_score.mantissa, back.final_score.scale), (c.final_score.mantissa, c.final_score.scale));
    assert_eq!(back.ma5.map(|d| (d.mantissa, d.scale)), c.ma5.map(|d| (d.mantissa, d.scale)));
    assert_eq!(back.status, c.status);
    assert_eq!(back.stock_name, c.stock_name);
}

#[test]
fn lower_case_names_parse() {
    assert_eq!(CandidateStatus::from_str("triggered"), Ok(CandidateStatus::Triggered));
    assert_eq!(StrategyType::from_str("breakout"), Ok(StrategyType::Breakout));
    assert!(CandidateStatus::from_str("DONE").is_err());
}

#[test]
fn negative_zero_and_far_dates_read_back() {
    let mut c = candidate_from_record(record()).unwrap();
    c.prev_low = Dec { mantissa: 0, scale: 2, negative: true };
    c.ma20 = Some(Dec { mantissa: -12345678901234567890123456789, scale: 28, negative: true });
    c.trade_date = day(-1, 1, 1);
    let rec = candidate_record(&c);
    assert_eq!(rec.prev_low, "-0.00");
    assert_eq!(rec.trade_date, "-0001-01-01");
    let back = candidate_from_record(rec).unwrap();
    assert_eq!((back.prev_low.mantissa, back.prev_low.scale, back.prev_low.negative), (0, 2, false));
    assert_eq!(
        back.ma20.map(|d| (d.mantissa, d.scale, d.negative)),
        Some((-12345678901234567890123456789, 28, true))
    );
    assert_eq!(back.trade_date.days_from_ce, c.trade_date.days_from_ce);
    c.trade_date = day(12345, 6, 7);
    let rec = candidate_record(&c);
    assert_eq!(rec.trade_date, "+12345-06-07");
    assert_eq!(candidate_from_record(rec).unwrap().trade_date.days_from_ce, c.trade_date.days_from_ce);
}
