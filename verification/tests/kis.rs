use chrono::{Datelike, NaiveDate};
use rust_decimal::Decimal;

use kis_supply_bot::clock::{Date, TimeOfDay};
use kis_supply_bot::discord::format_candidate_report;
use kis_supply_bot::strategy::monitor::{evaluate_signal, plan_signal};
use kis_supply_bot::config::{AppConfig, TradingMode};
use kis_supply_bot::decimal::Dec;
use kis_supply_bot::domain::{OrderRequest, OrderSide, OrderStatus, OrderType};
use kis_supply_bot::kis::mock_client::{mock_stocks, stock};
use kis_supply_bot::kis::{client_from_config, HttpKisClient, KisClientChoice, MockKisClient};
use kis_supply_bot::strategy::bounds::{dec_in_range, inputs_in_range, signal_inputs_in_range};
use kis_supply_bot::strategy::candidate_builder::{build_candidates, StockInputs};

fn rd(x: Dec) -> Decimal {
    let mut a = Decimal::from_i128_with_scale(x.mantissa, x.scale);
    a.set_sign_negative(x.negative);
    a
}

fn day(y: i32, m: u32, d: u32) -> Date {
    Date { days_from_ce: NaiveDate::from_ymd_opt(y, m, d).unwrap().num_days_from_ce() }
}

#[test]
fn mock_universe_has_five_plain_stocks() {
    let stocks = mock_stocks();
    let codes: Vec<&str> = stocks.iter().map(|s| s.stock_code.as_str()).collect();
    assert_eq!(codes, vec!["005930", "000660", "035420", "035720", "005380"]);
    assert_eq!(stocks[3].stock_name, "카카오");
    assert_eq!(stocks[0].sector.as_deref(), Some("반도체"));
    assert!(stocks.iter().all(|s| !s.is_etf && !s.is_preferred && !s.is_warning));
    let one = stock("1", "n", "m", "s");
    assert_eq!(one.market.as_deref(), Some("m"));
    assert_eq!(MockKisClient::new().fetch_stock_universe().len(), 5);
}

#[test]
fn mock_stock_lookup() {
    let client = MockKisClient::new();
    assert_eq!(client.fetch_stock_basic("035420").unwrap().stock_name, "NAVER");
    assert_eq!(client.fetch_stock_basic("999999").err(), Some("mock stock not found: 999999".to_string()));
    assert_eq!(client.issue_access_token(), "mock-token");
}

#[test]
fn mock_flows_and_candles() {
    let client = MockKisClient::new();
    let to = day(2026, 5, 12);
    let flows = client.fetch_investor_flow_daily("035720", day(2026, 4, 12), to);
    assert_eq!(flows.len(), 5);
    assert_eq!(flows[0].trade_date.days_from_ce, day(2026, 5, 8).days_from_ce);
    assert_eq!(flows[4].trade_date.days_from_ce, to.days_from_ce);
    assert_eq!(flows[0].institution_net_buy_amt, -700_000_000);
    assert_eq!(flows[4].institution_net_buy_amt, 900_000_000);
    assert_eq!(flows[4].foreign_net_buy_qty, Some(-3_000));
    assert_eq!(flows[4].individual_net_buy_amt, -600_000_000);
    let rows = client.fetch_ohlcv_daily("005930", day(2026, 4, 12), to);
    assert_eq!(rows.len(), 20);
    assert_eq!(rd(rows[0].close_price), Decimal::from(78_000));
    assert_eq!(rd(rows[19].close_price), Decimal::from(78_000 + 19 * 180));
    assert_eq!(rd(rows[19].open_price), Decimal::from(78_000 + 19 * 180 - 250));
    assert_eq!(rd(rows[19].high_price), Decimal::from(78_000 + 19 * 180 + 700));
    assert_eq!(rd(rows[19].low_price), Decimal::from(78_000 + 19 * 180 - 900));
    assert_eq!(rows[19].trade_amount, 20_000_000_000 + 19 * 120_000_000);
    assert_eq!(rows[0].trade_date.days_from_ce, to.days_from_ce - 19);
}

#[test]
fn mock_quotes_and_fundamentals() {
    let client = MockKisClient::new();
    let q = client.fetch_current_quote("005930");
    assert_eq!(q.stock_name, "삼성전자");
    assert_eq!(rd(q.current_price), Decimal::from(82_250));
    assert_eq!(rd(q.bid_price), Decimal::from(82_210));
    assert_eq!(q.vwap.map(rd), Some(Decimal::from(81_900)));
    assert_eq!(client.fetch_current_quote("x").stock_name, "UNKNOWN");
    let weak = client.fetch_financial_ratio("035720").unwrap();
    assert_eq!(weak.debt_ratio.map(rd), Some(Decimal::from(320)));
    assert_eq!(weak.operating_profit, Some(-100_000_000_000));
    assert_eq!(client.fetch_market_cap("005380", day(2026, 5, 12)), Some(49_000_000_000_000));
    assert_eq!(client.fetch_market_cap("zzz", day(2026, 5, 12)), Some(50_000_000_000));
    let response = client.submit_order(OrderRequest {
        stock_code: "005930".to_string(),
        side: OrderSide::Buy,
        order_type: OrderType::Limit,
        price: None,
        qty: 1,
    });
    assert_eq!(response.status, OrderStatus::DryRun);
    assert_eq!(response.kis_order_no, None);
}

#[test]
fn client_choice_follows_mode_and_credentials() {
    let mut config = AppConfig::default();
    assert!(matches!(client_from_config(&config), KisClientChoice::Mock));
    config.app.trading_mode = TradingMode::Real;
    assert!(matches!(client_from_config(&config), KisClientChoice::Mock));
    config.kis.app_key = "k".to_string();
    config.kis.app_secret = "s".to_string();
    config.kis.account_no = "a".to_string();
    match client_from_config(&config) {
        KisClientChoice::Http(c) => assert_eq!(c.base_url, "https://openapi.koreainvestment.com:9443"),
        KisClientChoice::Mock => panic!("expected the HTTP client"),
    }
    config.app.trading_mode = TradingMode::Paper;
    match client_from_config(&config) {
        KisClientChoice::Http(c) => assert_eq!(c.base_url, "https://openapivts.koreainvestment.com:29443"),
        KisClientChoice::Mock => panic!("expected the HTTP client"),
    }
}

#[test]
fn http_client_texts() {
    let c = HttpKisClient::new("https://host:1//".to_string(), "k".to_string(), "s".to_string());
    assert_eq!(c.token_url(), "https://host:1/oauth2/tokenP");
    let long = "x".repeat(400);
    let message = HttpKisClient::token_failure_message("400 Bad Request", &long);
    assert_eq!(message, format!("KIS token failed: 400 Bad Request {}", "x".repeat(300)));
    assert_eq!(HttpKisClient::token_failure_message("500", "oops"), "KIS token failed: 500 oops");
    assert!(c.fetch_current_quote().is_err());
    assert!(c.submit_order().is_err());
}

#[test]
fn mock_data_builds_sorted_candidates() {
    let client = MockKisClient::new();
    let date = day(2026, 5, 12);
    let strategy = AppConfig::default().strategy;
    let inputs: Vec<StockInputs> = client
        .fetch_stock_universe()
        .into_iter()
        .map(|s| StockInputs {
            flows: client.fetch_investor_flow_daily(&s.stock_code, day(2026, 4, 12), date),
            ohlcv: client.fetch_ohlcv_daily(&s.stock_code, day(2026, 4, 12), date),
            financial: client.fetch_financial_ratio(&s.stock_code),
            market_cap: client.fetch_market_cap(&s.stock_code, date),
            stock: s,
        })
        .collect();
    let candidates = build_candidates(date, &strategy, &inputs);
    assert!(!candidates.is_empty());
    assert!(candidates.iter().all(|c| c.stock_code != "035720"));
    for pair in candidates.windows(2) {
        assert!(rd(pair[0].final_score) >= rd(pair[1].final_score));
    }
    for c in &candidates {
        let s = rd(c.final_score);
        assert!(s >= Decimal::ZERO && s <= Decimal::from(100));
    }
}

#[test]
fn bounds_accept_mock_data_and_refuse_huge_values() {
    let client = MockKisClient::new();
    let date = day(2026, 5, 12);
    let strategy = AppConfig::default().strategy;
    let stock = client.fetch_stock_basic("005930").unwrap();
    let mut input = StockInputs {
        flows: client.fetch_investor_flow_daily("005930", day(2026, 4, 12), date),
        ohlcv: client.fetch_ohlcv_daily("005930", day(2026, 4, 12), date),
        financial: client.fetch_financial_ratio("005930"),
        market_cap: client.fetch_market_cap("005930", date),
        stock,
    };
    assert!(inputs_in_range(&input, &strategy));
    input.ohlcv[3].trade_amount = 2_000_000_000_000_000;
    assert!(!inputs_in_range(&input, &strategy));
    assert!(dec_in_range(Dec { mantissa: 12345, scale: 4, negative: false }));
    assert!(!dec_in_range(Dec { mantissa: 12345, scale: 5, negative: false }));
    assert!(!dec_in_range(Dec { mantissa: -1, scale: 0, negative: false }));
    let q = client.fetch_current_quote("005930");
    let inputs = vec![StockInputs { ohlcv: client.fetch_ohlcv_daily("005930", day(2026, 4, 12), date), ..input }];
    let built = build_candidates(date, &strategy, &inputs);
    assert_eq!(built.len(), 2);
    assert!(signal_inputs_in_range(&built[0], &q));
    let mut zero = built[0].clone();
    zero.prev_close = Dec { mantissa: 0, scale: 0, negative: false };
    assert!(!signal_inputs_in_range(&zero, &q));
}

#[test]
fn flagged_stock_never_becomes_candidate() {
    let client = MockKisClient::new();
    let date = day(2026, 5, 12);
    let strategy = AppConfig::default().strategy;
    let mut stock = client.fetch_stock_basic("005930").unwrap();
    stock.is_etf = true;
    let input = StockInputs {
        flows: client.fetch_investor_flow_daily("005930", day(2026, 4, 12), date),
        ohlcv: client.fetch_ohlcv_daily("005930", day(2026, 4, 12), date),
        financial: client.fetch_financial_ratio("005930"),
        market_cap: client.fetch_market_cap("005930", date),
        stock,
    };
    assert!(build_candidates(date, &strategy, &vec![input.clone()]).is_empty());
    let mut plain = input;
    plain.stock.is_etf = false;
    let built = build_candidates(date, &strategy, &vec![plain]);
    assert_eq!(built.len(), 2);
    assert!(built.iter().all(|c| c.stock_code == "005930"));
}

#[test]
fn mock_day_runs_end_to_end() {
    let client = MockKisClient::new();
    let date = day(2026, 5, 12);
    let config = AppConfig::default();
    let inputs: Vec<StockInputs> = client
        .fetch_stock_universe()
        .into_iter()
        .map(|s| StockInputs {
            flows: client.fetch_investor_flow_daily(&s.stock_code, day(2026, 4, 12), date),
            ohlcv: client.fetch_ohlcv_daily(&s.stock_code, day(2026, 4, 12), date),
            financial: client.fetch_financial_ratio(&s.stock_code),
            market_cap: client.fetch_market_cap(&s.stock_code, date),
            stock: s,
        })
        .collect();
    let candidates = build_candidates(date, &config.strategy, &inputs);
    let report = format_candidate_report(date, &candidates);
    assert!(report.starts_with("[후보 생성 완료]\n기준일: 2026-05-12\n"));
    let now = TimeOfDay::from_hms(10, 0, 0);
    let mut fired = 0;
    for c in &candidates {
        let q = client.fetch_current_quote(&c.stock_code);
        assert!(signal_inputs_in_range(c, &q));
        if let Some(reasons) = evaluate_signal(c, &q, now, &config.strategy) {
            let plan = plan_signal(day(2026, 5, 13), now, c, &q, &reasons, &config.risk, fired, false);
            if let Ok(plan) = plan {
                assert_eq!(plan.buy_request.qty, 1);
                assert_eq!(plan.signal.reason, reasons.join("\n"));
                fired += 1;
            }
        }
    }
    assert!(fired <= config.risk.max_daily_buy_count);
}

#[test]
fn refused_token_request_reports_status_and_body_start() {
    let body = "x".repeat(400);
    let r = HttpKisClient::token_from_response(false, "400 Bad Request", &body);
    assert_eq!(r, Err(format!("KIS token failed: 400 Bad Request {}", "x".repeat(300))));
    let short = HttpKisClient::token_from_response(false, "401", "denied");
    assert_eq!(short, Err("KIS token failed: 401 denied".to_string()));
}

#[test]
fn token_is_read_from_a_successful_body() {
    let r = HttpKisClient::token_from_response(
        true,
        "200 OK",
        "{\"access_token\":\"abc\",\"token_type\":\"Bearer\",\"expires_in\":86400}",
    );
    assert_eq!(r, Ok("abc".to_string()));
}

#[test]
fn token_body_without_a_string_token_is_refused() {
    let missing = HttpKisClient::token_from_response(true, "200 OK", "{}");
    assert_eq!(missing, Err("KIS token response missing access_token".to_string()));
    let number = HttpKisClient::token_from_response(true, "200 OK", "{\"access_token\":5}");
    assert_eq!(number, Err("KIS token response missing access_token".to_string()));
}

#[test]
fn token_body_that_is_not_json_is_refused() {
    let r = HttpKisClient::token_from_response(true, "200 OK", "not json").unwrap_err();
    assert!(r.starts_with("parse KIS token json: "));
    assert!(r.len() > "parse KIS token json: ".len());
}
