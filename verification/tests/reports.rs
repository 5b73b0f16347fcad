use chrono::{Datelike, NaiveDate};
use rust_decimal::Decimal;

use kis_supply_bot::clock::{Date, TimeOfDay};
use kis_supply_bot::commands::{
    collect_finished_message, collect_started_message, health_check_message,
    monitor_finished_message, monitor_guard, monitor_started_message,
};
use kis_supply_bot::config::{AppConfig, TradingMode};
use kis_supply_bot::decimal::Dec;
use kis_supply_bot::discord::{format_candidate_report, format_signal_report, DiscordClient};
use kis_supply_bot::domain::{
    BuyOrderRequest, CandidateStatus, CurrentQuote, OrderStatus, SellOrderRequest, StrategyType,
    TradeCandidate,
};
use kis_supply_bot::error::BotError;
use kis_supply_bot::order::{DryRunOrderExecutor, RealOrderExecutor};
use kis_supply_bot::strategy::monitor::plan_signal;

fn dec(x: Decimal) -> Dec {
    Dec { mantissa: x.mantissa(), scale: x.scale(), negative: x.is_sign_negative() }
}

fn day(y: i32, m: u32, d: u32) -> Date {
    Date { days_from_ce: NaiveDate::from_ymd_opt(y, m, d).unwrap().num_days_from_ce() }
}

fn candidate(code: &str, name: &str, score: Decimal) -> TradeCandidate {
    TradeCandidate {
        trade_date: day(2026, 5, 12),
        stock_code: code.to_string(),
        stock_name: name.to_string(),
        supply_score: dec(Decimal::from(90)),
        liquidity_score: dec(Decimal::from(70)),
        trend_score: dec(Decimal::from(80)),
        risk_score: dec(Decimal::from(100)),
        final_score: dec(score),
        inst_buy_days: 5,
        foreign_buy_days: 5,
        inst_net_buy_amt_5d: 12_345_678_901,
        foreign_net_buy_amt_5d: -250_000_000,
        total_net_buy_amt_5d: 12_095_678_901,
        market_cap: Some(1),
        avg_trade_amount_20d: Some(1),
        prev_close: dec(Decimal::from(100)),
        prev_high: dec(Decimal::new(10150, 2)),
        prev_low: dec(Decimal::from(99)),
        ma5: None,
        ma20: None,
        breakout_price: None,
        pullback_price: None,
        stop_loss_price: None,
        target_price: None,
        strategy_type: StrategyType::Pullback,
        status: CandidateStatus::Ready,
    }
}

#[test]
fn candidate_report_lists_candidates() {
    let c = candidate("005930", "삼성전자", Decimal::new(8555, 2));
    let text = format_candidate_report(day(2026, 5, 12), &[c]);
    assert_eq!(
        text,
        "[후보 생성 완료]\n기준일: 2026-05-12\n후보 수: 1개\n\n1. 005930 삼성전자\n   점수: 85.6\n   기관 5일 순매수: 123억\n   외국인 5일 순매수: -2억\n   전략: PULLBACK\n"
    );
}

#[test]
fn candidate_report_without_candidates() {
    let text = format_candidate_report(day(2026, 5, 12), &[]);
    assert_eq!(
        text,
        "[후보 생성 완료]\n기준일: 2026-05-12\n후보 수: 0개\n\n조건을 통과한 후보가 없습니다."
    );
}

#[test]
fn candidate_report_shows_ten_at_most() {
    let list: Vec<TradeCandidate> =
        (0..12).map(|i| candidate(&format!("{:06}", i), "X", Decimal::from(80))).collect();
    let text = format_candidate_report(day(2026, 5, 12), &list);
    assert!(text.contains("후보 수: 12개"));
    assert!(text.contains("10. 000009 X"));
    assert!(!text.contains("11. "));
    assert_eq!(text.lines().count(), 4 + 10 * 6 - 1);
}

#[test]
fn signal_report_text() {
    let reasons = vec!["전일고가 돌파".to_string(), "체결강도 124".to_string()];
    let text = format_signal_report(
        "2026-05-13 10:00:00",
        "005930",
        "삼성전자",
        StrategyType::Breakout,
        dec(Decimal::new(822505, 1)),
        dec(Decimal::new(10150, 2)),
        dec(Decimal::new(8555, 2)),
        &reasons,
    );
    assert_eq!(
        text,
        "[DRY_RUN 매수 신호]\n시간: 2026-05-13 10:00:00\n종목: 005930 삼성전자\n전략: BREAKOUT\n현재가: 82250\n전일고가: 102\nfinal_score: 85.6\n\n사유:\n- 전일고가 돌파\n- 체결강도 124\n\n상태:\n실제 주문 없음. DRY_RUN 기록만 저장."
    );
}

fn quote(price: i64) -> CurrentQuote {
    CurrentQuote {
        stock_code: "005930".to_string(),
        stock_name: "삼성전자".to_string(),
        current_price: dec(Decimal::from(price)),
        open_price: dec(Decimal::from(100)),
        high_price: dec(Decimal::from(price)),
        low_price: dec(Decimal::from(99)),
        prev_close: dec(Decimal::from(100)),
        accumulated_trade_amount: 1,
        expected_trade_amount_ratio: dec(Decimal::from(160)),
        execution_strength: dec(Decimal::from(124)),
        bid_price: dec(Decimal::new(price * 100 - 10, 2)),
        ask_price: dec(Decimal::new(price * 100 + 10, 2)),
        vwap: Some(dec(Decimal::from(100))),
        is_vi_expected: false,
    }
}

#[test]
fn signal_plan_records_dry_run_buy() {
    let risk = AppConfig::default().risk;
    let c = candidate("005930", "삼성전자", Decimal::from(90));
    let reasons = vec!["a".to_string(), "b".to_string()];
    let now = TimeOfDay::from_hms(10, 0, 0);
    let plan = plan_signal(day(2026, 5, 13), now, &c, &quote(102), &reasons, &risk, 0, false).unwrap();
    assert_eq!(plan.signal.reason, "a\nb");
    assert_eq!(plan.signal.stock_code, "005930");
    assert_eq!(plan.signal.signal_date.days_from_ce, day(2026, 5, 13).days_from_ce);
    assert_eq!(plan.buy_request.qty, 1);
    assert_eq!(plan.buy_request.reason, "a, b");
    assert_eq!(plan.buy_request.price.mantissa, 102);
    assert!(plan.report.starts_with("[DRY_RUN 매수 신호]\n시간: 2026-05-13 10:00:00\n"));
    assert_eq!(
        plan_signal(day(2026, 5, 13), now, &c, &quote(102), &reasons, &risk, 3, false).err(),
        Some("하루 최대 신규 매수 신호 수 초과".to_string())
    );
}

#[test]
fn dry_run_orders_never_reach_the_broker() {
    let executor = DryRunOrderExecutor::new();
    let request = BuyOrderRequest {
        trade_date: day(2026, 5, 13),
        stock_code: "005930".to_string(),
        stock_name: "삼성전자".to_string(),
        price: dec(Decimal::from(82250)),
        qty: 1,
        reason: "x".to_string(),
    };
    assert_eq!(
        executor.buy_message(&request),
        "[DRY_RUN 주문 기록]\n종목: 005930 삼성전자\n가격: 82250\n수량: 1\n상태: 실제 주문 없음"
    );
    let bought = executor.buy_result(7);
    assert_eq!(bought.order_id, Some(7));
    assert_eq!(bought.kis_order_no, None);
    assert_eq!(bought.status, OrderStatus::DryRun);
    assert_eq!(bought.message, "DRY_RUN buy order recorded");
    let sold = executor.submit_sell_order(SellOrderRequest {
        trade_date: day(2026, 5, 13),
        stock_code: "005930".to_string(),
        stock_name: "삼성전자".to_string(),
        price: dec(Decimal::from(1)),
        qty: 1,
        reason: String::new(),
    });
    assert_eq!(sold.status, OrderStatus::DryRun);
    assert_eq!(sold.order_id, None);
    assert!(RealOrderExecutor.cancel_order().is_err());
    assert!(RealOrderExecutor.fetch_order_status().is_err());
}

#[test]
fn discord_client_skips_without_webhook() {
    let none = DiscordClient::new("   ".to_string());
    assert!(none.webhook_url.is_none());
    assert!(none.webhook_request("hi").is_none());
    let some = DiscordClient::new("https://example.invalid/hook".to_string());
    let (url, payload) = some.webhook_request("hi").unwrap();
    assert_eq!(url, "https://example.invalid/hook");
    assert_eq!(payload.content, "hi");
    assert_eq!(DiscordClient::error_message("t", "e"), "[오류 발생]\nt\ne");
}

#[test]
fn command_messages() {
    let date = day(2026, 5, 12);
    assert_eq!(
        collect_started_message(date, TradingMode::Mock),
        "[수집 시작]\n기준일: 2026-05-12\n모드: mock"
    );
    assert_eq!(
        collect_finished_message(date, TradingMode::Paper, true),
        "[수집 완료]\n기준일: 2026-05-12\n모드: paper\nDRY_RUN: true"
    );
    assert_eq!(monitor_started_message(date, true), "[장중 감시 시작]\n기준일: 2026-05-12\nDRY_RUN: true");
    assert_eq!(monitor_finished_message(date), "[장중 감시 종료]\n기준일: 2026-05-12");
    assert!(monitor_guard(true).is_ok());
    assert_eq!(
        monitor_guard(false),
        Err("DRY_RUN=false is not supported in this initial version; real order execution is disabled".to_string())
    );
}

#[test]
fn health_check_warns_on_defaults() {
    let config = AppConfig::default();
    assert_eq!(
        health_check_message(&config),
        "[Health Check]\n모드: mock\nDRY_RUN: true\nDATABASE_URL: sqlite://data/kis_supply_bot.db\nKIS API credentials are missing. Running in mock data mode.\nDRY_RUN is enabled. No real orders will be submitted."
    );
}

#[test]
fn bot_error_messages() {
    assert_eq!(BotError::MissingKisCredentials.message(), "KIS credentials missing for non-mock operation");
    assert_eq!(BotError::RealOrderDisabled.message(), "real order is disabled by safety gate");
    assert_eq!(
        BotError::InvalidStrategyState("x".to_string()).message(),
        "invalid strategy state: x"
    );
}
