use rust_decimal::Decimal;

use kis_supply_bot::config::{AppConfig, EnvOverrides, TradingMode};
use kis_supply_bot::decimal::Dec;
use kis_supply_bot::text::parse_i64;

fn rd(x: Dec) -> Decimal {
    let mut a = Decimal::from_i128_with_scale(x.mantissa, x.scale);
    a.set_sign_negative(x.negative);
    a
}

fn empty_env() -> EnvOverrides {
    EnvOverrides {
        app_env: None,
        trading_mode: None,
        dry_run: None,
        kis_base_url_mock: None,
        kis_base_url_real: None,
        kis_app_key: None,
        kis_app_secret: None,
        kis_account_no: None,
        kis_account_product_code: None,
        kis_enable_real_order: None,
        discord_webhook_url: None,
        database_url: None,
        enable_opening_strategy: None,
        enable_pullback_strategy: None,
        enable_breakout_strategy: None,
        max_daily_buy_count: None,
        max_position_ratio: None,
        max_daily_loss_rate: None,
    }
}

#[test]
fn defaults_are_safe() {
    let config = AppConfig::default();
    assert_eq!(config.app.trading_mode, TradingMode::Mock);
    assert!(config.app.dry_run);
    assert!(!config.kis.enable_real_order);
    assert!(config.kis.credentials_missing());
    assert_eq!(config.risk.max_daily_buy_count, 3);
    assert_eq!(rd(config.risk.max_daily_loss_rate), Decimal::new(-3, 2));
    assert_eq!(config.risk.no_new_buy_after, "15:10:00");
}

#[test]
fn credentials_missing_when_blank() {
    let mut config = AppConfig::default();
    config.kis.app_key = "key".to_string();
    config.kis.app_secret = "secret".to_string();
    config.kis.account_no = " \t".to_string();
    assert!(config.kis.credentials_missing());
    config.kis.account_no = "123".to_string();
    assert!(!config.kis.credentials_missing());
}

#[test]
fn trading_mode_names() {
    assert_eq!(TradingMode::from_str("PAPER"), Ok(TradingMode::Paper));
    assert_eq!(TradingMode::from_str("Real"), Ok(TradingMode::Real));
    assert_eq!(TradingMode::from_str("live"), Err("unsupported trading mode: live".to_string()));
    assert_eq!(TradingMode::Mock.as_str(), "mock");
}

#[test]
fn env_overrides_apply() {
    let mut config = AppConfig::default();
    let mut env = empty_env();
    env.trading_mode = Some("paper".to_string());
    env.dry_run = Some("No".to_string());
    env.kis_enable_real_order = Some("YES".to_string());
    env.enable_opening_strategy = Some("1".to_string());
    env.discord_webhook_url = Some("https://hook".to_string());
    env.max_daily_buy_count = Some("+5".to_string());
    env.max_position_ratio = Some("0.25".to_string());
    assert_eq!(config.apply_env_overrides(&env), Ok(()));
    assert_eq!(config.app.trading_mode, TradingMode::Paper);
    assert!(!config.app.dry_run);
    assert!(config.kis.enable_real_order);
    assert!(config.strategy.enable_opening_strategy);
    assert_eq!(config.discord.webhook_url, "https://hook");
    assert_eq!(config.risk.max_daily_buy_count, 5);
    assert_eq!(rd(config.risk.max_position_ratio), Decimal::new(25, 2));
    assert_eq!(rd(config.risk.max_daily_loss_rate), Decimal::new(-3, 2));
    assert_eq!(config.app.env, "dev");
}

#[test]
fn env_override_errors_leave_settings() {
    let mut config = AppConfig::default();
    let mut env = empty_env();
    env.app_env = Some("prod".to_string());
    env.trading_mode = Some("live".to_string());
    assert_eq!(config.apply_env_overrides(&env), Err("unsupported trading mode: live".to_string()));
    assert_eq!(config.app.env, "dev");
    let mut env = empty_env();
    env.max_daily_buy_count = Some(" 3".to_string());
    assert_eq!(config.apply_env_overrides(&env), Err("parse MAX_DAILY_BUY_COUNT".to_string()));
    let mut env = empty_env();
    env.max_daily_loss_rate = Some("abc".to_string());
    assert_eq!(config.apply_env_overrides(&env), Err("parse MAX_DAILY_LOSS_RATE".to_string()));
    assert_eq!(config.risk.max_daily_buy_count, 3);
}

#[test]
fn empty_environment_changes_nothing() {
    let mut config = AppConfig::default();
    assert_eq!(config.apply_env_overrides(&empty_env()), Ok(()));
    let fresh = AppConfig::default();
    assert_eq!(config.app.env, fresh.app.env);
    assert_eq!(config.app.trading_mode, fresh.app.trading_mode);
    assert_eq!(config.app.dry_run, fresh.app.dry_run);
    assert_eq!(config.kis.base_url_real, fresh.kis.base_url_real);
    assert_eq!(config.database.url, fresh.database.url);
    assert_eq!(config.risk.max_daily_buy_count, fresh.risk.max_daily_buy_count);
    assert_eq!(rd(config.risk.max_position_ratio), rd(fresh.risk.max_position_ratio));
}

#[test]
fn integer_settings_parse_like_std() {
    for text in ["-9223372036854775808", "9223372036854775807", "9223372036854775808", "-9223372036854775809", "+", "-", "", "12a", " 1", "-0", "+42", "007", "99999999999999999999999"] {
        assert_eq!(parse_i64(text), text.parse::<i64>().ok(), "{text}");
    }
}
