//! Settings of the bot: mode, broker, webhook, database, strategy and risk limits.
use vstd::prelude::*;
use crate::decimal::{Dec, lit_dec};
use crate::text::{blank, i64_text_value, is_blank, lower_text, lowercase_equals, parse_i64};
use crate::decimal::rust_decimal_parse;

verus! {

/// All settings.
#[derive(Clone, Debug)]
pub struct AppConfig {
    pub app: AppSection,
    pub kis: KisSection,
    pub discord: DiscordSection,
    pub database: DatabaseSection,
    pub strategy: StrategySection,
    pub risk: RiskSection,
}

#[derive(Clone, Debug)]
pub struct AppSection {
    pub env: String,
    pub trading_mode: TradingMode,
    pub dry_run: bool,
}

/// Whose money the bot trades with: none (mock data), a paper account, or a real one.
#[derive(Clone, Copy, Debug, PartialEq, Eq, Structural)]
pub enum TradingMode {
    Mock,
    Paper,
    Real,
}

/// The name of a trading mode.
pub open spec fn mode_text(m: TradingMode) -> Seq<char> {
    match m {
        TradingMode::Mock => "mock"@,
        TradingMode::Paper => "paper"@,
        TradingMode::Real => "real"@,
    }
}

/// What parsing a trading mode gives: names match without regard to ASCII case.
pub open spec fn parse_mode(value: Seq<char>) -> Result<TradingMode, Seq<char>> {
    let l = lower_text(value);
    if l == "mock"@ {
        Ok(TradingMode::Mock)
    } else if l == "paper"@ {
        Ok(TradingMode::Paper)
    } else if l == "real"@ {
        Ok(TradingMode::Real)
    } else {
        Err("unsupported trading mode: "@ + value)
    }
}

impl TradingMode {
    /// The name, as its `Display` writes it.
    pub fn as_str(&self) -> (r: &'static str)
        ensures
            r@ == mode_text(*self),
    {
        match self {
            TradingMode::Mock => "mock",
            TradingMode::Paper => "paper",
            TradingMode::Real => "real",
        }
    }

    /// Parses a mode name, ignoring ASCII case.
    pub fn from_str(value: &str) -> (r: Result<TradingMode, String>)
        ensures
            r is Ok ==> parse_mode(value@) == Ok::<TradingMode, Seq<char>>(r->Ok_0),
            r is Err ==> parse_mode(value@) == Err::<TradingMode, Seq<char>>(r->Err_0@),
    {
        if lowercase_equals(value, "mock") {
            Ok(TradingMode::Mock)
        } else if lowercase_equals(value, "paper") {
            Ok(TradingMode::Paper)
        } else if lowercase_equals(value, "real") {
            Ok(TradingMode::Real)
        } else {
            let mut message = String::from_str("unsupported trading mode: ");
            message.append(value);
            Err(message)
        }
    }
}

/// Every mode name parses back to its mode.
pub proof fn mode_name_round_trip(m: TradingMode)
    ensures
        parse_mode(mode_text(m)) == Ok::<TradingMode, Seq<char>>(m),
{
    reveal_strlit("mock");
    reveal_strlit("paper");
    reveal_strlit("real");
    assert(lower_text("mock"@) =~= "mock"@);
    assert(lower_text("paper"@) =~= "paper"@);
    assert(lower_text("real"@) =~= "real"@);
    assert("paper"@ != "mock"@);
    assert("real"@[0] != "mock"@[0]);
    assert("real"@ != "paper"@);
}

/// Broker endpoints and credentials.
#[derive(Clone, Debug)]
pub struct KisSection {
    pub base_url_mock: String,
    pub base_url_real: String,
    pub app_key: String,
    pub app_secret: String,
    pub account_no: String,
    pub account_product_code: String,
    pub enable_real_order: bool,
}

impl KisSection {
    /// The key, the secret or the account number is blank.
    pub open spec fn missing_credentials(self) -> bool {
        blank(self.app_key@) || blank(self.app_secret@) || blank(self.account_no@)
    }

    /// Whether the key, the secret or the account number is empty once trimmed.
    pub fn credentials_missing(&self) -> (r: bool)
        ensures
            r == self.missing_credentials(),
    {
        is_blank(self.app_key.as_str()) || is_blank(self.app_secret.as_str()) || is_blank(
            self.account_no.as_str(),
        )
    }
}

#[derive(Clone, Debug)]
pub struct DiscordSection {
    pub webhook_url: String,
}

#[derive(Clone, Debug)]
pub struct DatabaseSection {
    pub url: String,
}

/// Screening thresholds and which intraday strategies are on.
#[derive(Clone, Debug)]
pub struct StrategySection {
    pub enable_opening_strategy: bool,
    pub enable_pullback_strategy: bool,
    pub enable_breakout_strategy: bool,
    pub lookback_days: usize,
    pub min_institution_buy_days: i32,
    pub min_foreign_buy_days: i32,
    pub min_total_net_buy_amt_5d: i64,
    pub min_market_cap: i64,
    pub min_avg_trade_amount_20d: i64,
    pub max_rise_rate_5d: Dec,
    pub max_prev_day_rise_rate: Dec,
}

impl StrategySection {
    pub open spec fn wf(self) -> bool {
        self.max_rise_rate_5d.wf() && self.max_prev_day_rise_rate.wf()
    }
}

/// Limits on new signals.
#[derive(Clone, Debug)]
pub struct RiskSection {
    pub max_daily_buy_count: i64,
    pub max_position_ratio: Dec,
    pub max_daily_loss_rate: Dec,
    pub max_spread_rate: Dec,
    pub max_intraday_rise_rate: Dec,
    pub no_new_buy_after: String,
    pub restrict_same_sector: bool,
}

impl RiskSection {
    pub open spec fn wf(self) -> bool {
        &&& self.max_position_ratio.wf()
        &&& self.max_daily_loss_rate.wf()
        &&& self.max_spread_rate.wf()
        &&& self.max_intraday_rise_rate.wf()
    }
}

impl AppConfig {
    pub open spec fn wf(self) -> bool {
        self.strategy.wf() && self.risk.wf()
    }

    /// The settings used when no configuration file is present: mock data, dry run, real
    /// orders off.
    pub open spec fn is_default(self) -> bool {
        &&& self.app.env@ == "dev"@
        &&& self.app.trading_mode == TradingMode::Mock
        &&& self.app.dry_run
        &&& self.kis.base_url_mock@ == "https://openapivts.koreainvestment.com:29443"@
        &&& self.kis.base_url_real@ == "https://openapi.koreainvestment.com:9443"@
        &&& self.kis.app_key@ == Seq::<char>::empty()
        &&& self.kis.app_secret@ == Seq::<char>::empty()
        &&& self.kis.account_no@ == Seq::<char>::empty()
        &&& self.kis.account_product_code@ == "01"@
        &&& !self.kis.enable_real_order
        &&& self.discord.webhook_url@ == Seq::<char>::empty()
        &&& self.database.url@ == "sqlite://data/kis_supply_bot.db"@
        &&& !self.strategy.enable_opening_strategy
        &&& self.strategy.enable_pullback_strategy
        &&& self.strategy.enable_breakout_strategy
        &&& self.strategy.lookback_days == 5
        &&& self.strategy.min_institution_buy_days == 3
        &&& self.strategy.min_foreign_buy_days == 3
        &&& self.strategy.min_total_net_buy_amt_5d == 1_000_000_000
        &&& self.strategy.min_market_cap == 100_000_000_000
        &&& self.strategy.min_avg_trade_amount_20d == 5_000_000_000
        &&& self.strategy.max_rise_rate_5d == lit_dec(20, 2)
        &&& self.strategy.max_prev_day_rise_rate == lit_dec(10, 2)
        &&& self.risk.max_daily_buy_count == 3
        &&& self.risk.max_position_ratio == lit_dec(10, 2)
        &&& self.risk.max_daily_loss_rate == lit_dec(-3, 2)
        &&& self.risk.max_spread_rate == lit_dec(3, 3)
        &&& self.risk.max_intraday_rise_rate == lit_dec(7, 2)
        &&& self.risk.no_new_buy_after@ == "15:10:00"@
        &&& !self.risk.restrict_same_sector
    }
}

impl Default for AppConfig {
    fn default() -> (r: AppConfig)
        ensures
            r.is_default(),
            r.wf(),
    {
        AppConfig {
            app: AppSection {
                env: String::from_str("dev"),
                trading_mode: TradingMode::Mock,
                dry_run: true,
            },
            kis: KisSection {
                base_url_mock: String::from_str("https://openapivts.koreainvestment.com:29443"),
                base_url_real: String::from_str("https://openapi.koreainvestment.com:9443"),
                app_key: String::new(),
                app_secret: String::new(),
                account_no: String::new(),
                account_product_code: String::from_str("01"),
                enable_real_order: false,
            },
            discord: DiscordSection { webhook_url: String::new() },
            database: DatabaseSection { url: String::from_str("sqlite://data/kis_supply_bot.db") },
            strategy: StrategySection {
                enable_opening_strategy: false,
                enable_pullback_strategy: true,
                enable_breakout_strategy: true,
                lookback_days: 5,
                min_institution_buy_days: 3,
                min_foreign_buy_days: 3,
                min_total_net_buy_amt_5d: 1_000_000_000,
                min_market_cap: 100_000_000_000,
                min_avg_trade_amount_20d: 5_000_000_000,
                max_rise_rate_5d: Dec::new(20, 2),
                max_prev_day_rise_rate: Dec::new(10, 2),
            },
            risk: RiskSection {
                max_daily_buy_count: 3,
                max_position_ratio: Dec::new(10, 2),
                max_daily_loss_rate: Dec::new(-3, 2),
                max_spread_rate: Dec::new(3, 3),
                max_intraday_rise_rate: Dec::new(7, 2),
                no_new_buy_after: String::from_str("15:10:00"),
                restrict_same_sector: false,
            },
        }
    }
}

/// The settings found in the environment, one per variable; `None` where it is unset.
#[derive(Clone, Debug)]
pub struct EnvOverrides {
    pub app_env: Option<String>,
    pub trading_mode: Option<String>,
    pub dry_run: Option<String>,
    pub kis_base_url_mock: Option<String>,
    pub kis_base_url_real: Option<String>,
    pub kis_app_key: Option<String>,
    pub kis_app_secret: Option<String>,
    pub kis_account_no: Option<String>,
    pub kis_account_product_code: Option<String>,
    pub kis_enable_real_order: Option<String>,
    pub discord_webhook_url: Option<String>,
    pub database_url: Option<String>,
    pub enable_opening_strategy: Option<String>,
    pub enable_pullback_strategy: Option<String>,
    pub enable_breakout_strategy: Option<String>,
    pub max_daily_buy_count: Option<String>,
    pub max_position_ratio: Option<String>,
    pub max_daily_loss_rate: Option<String>,
}

/// A flag value that means yes: `1`, `true`, `yes` or `y`, in any ASCII case.
pub open spec fn truthy(v: Seq<char>) -> bool {
    let l = lower_text(v);
    l == "1"@ || l == "true"@ || l == "yes"@ || l == "y"@
}

/// A text setting: the variable's value where it is set.
pub open spec fn text_setting(var: Option<String>, current: Seq<char>) -> Seq<char> {
    match var {
        Some(v) => v@,
        None => current,
    }
}

/// A flag setting: whether the variable's value means yes, where it is set.
pub open spec fn flag_setting(var: Option<String>, current: bool) -> bool {
    match var {
        Some(v) => truthy(v@),
        None => current,
    }
}

/// The error of the first variable that does not parse: the trading mode, then the daily
/// buy count, the position ratio and the daily loss rate.
pub open spec fn env_error(env: EnvOverrides) -> Option<Seq<char>> {
    if env.trading_mode matches Some(v) && parse_mode(v@) is Err {
        Some(parse_mode(env.trading_mode->0@)->Err_0)
    } else if env.max_daily_buy_count matches Some(v) && i64_text_value(v@) is None {
        Some("parse "@ + "MAX_DAILY_BUY_COUNT"@)
    } else if env.max_position_ratio matches Some(v) && rust_decimal_parse(v@) is None {
        Some("parse "@ + "MAX_POSITION_RATIO"@)
    } else if env.max_daily_loss_rate matches Some(v) && rust_decimal_parse(v@) is None {
        Some("parse "@ + "MAX_DAILY_LOSS_RATE"@)
    } else {
        None
    }
}

/// `new` is `old` with every variable that is set put in its place.
pub open spec fn env_applied(old: AppConfig, new: AppConfig, env: EnvOverrides) -> bool {
    &&& new.app.env@ == text_setting(env.app_env, old.app.env@)
    &&& new.app.trading_mode == (match env.trading_mode {
        Some(v) => parse_mode(v@)->Ok_0,
        None => old.app.trading_mode,
    })
    &&& new.app.dry_run == flag_setting(env.dry_run, old.app.dry_run)
    &&& new.kis.base_url_mock@ == text_setting(env.kis_base_url_mock, old.kis.base_url_mock@)
    &&& new.kis.base_url_real@ == text_setting(env.kis_base_url_real, old.kis.base_url_real@)
    &&& new.kis.app_key@ == text_setting(env.kis_app_key, old.kis.app_key@)
    &&& new.kis.app_secret@ == text_setting(env.kis_app_secret, old.kis.app_secret@)
    &&& new.kis.account_no@ == text_setting(env.kis_account_no, old.kis.account_no@)
    &&& new.kis.account_product_code@ == text_setting(
        env.kis_account_product_code,
        old.kis.account_product_code@,
    )
    &&& new.kis.enable_real_order == flag_setting(env.kis_enable_real_order, old.kis.enable_real_order)
    &&& new.discord.webhook_url@ == text_setting(env.discord_webhook_url, old.discord.webhook_url@)
    &&& new.database.url@ == text_setting(env.database_url, old.database.url@)
    &&& new.strategy.enable_opening_strategy == flag_setting(
        env.enable_opening_strategy,
        old.strategy.enable_opening_strategy,
    )
    &&& new.strategy.enable_pullback_strategy == flag_setting(
        env.enable_pullback_strategy,
        old.strategy.enable_pullback_strategy,
    )
    &&& new.strategy.enable_breakout_strategy == flag_setting(
        env.enable_breakout_strategy,
        old.strategy.enable_breakout_strategy,
    )
    &&& new.strategy.lookback_days == old.strategy.lookback_days
    &&& new.strategy.min_institution_buy_days == old.strategy.min_institution_buy_days
    &&& new.strategy.min_foreign_buy_days == old.strategy.min_foreign_buy_days
    &&& new.strategy.min_total_net_buy_amt_5d == old.strategy.min_total_net_buy_amt_5d
    &&& new.strategy.min_market_cap == old.strategy.min_market_cap
    &&& new.strategy.min_avg_trade_amount_20d == old.strategy.min_avg_trade_amount_20d
    &&& new.strategy.max_rise_rate_5d == old.strategy.max_rise_rate_5d
    &&& new.strategy.max_prev_day_rise_rate == old.strategy.max_prev_day_rise_rate
    &&& new.risk.max_daily_buy_count == (match env.max_daily_buy_count {
        Some(v) => i64_text_value(v@)->0 as i64,
        None => old.risk.max_daily_buy_count,
    })
    &&& new.risk.max_position_ratio@ == (match env.max_position_ratio {
        Some(v) => rust_decimal_parse(v@)->0,
        None => old.risk.max_position_ratio@,
    })
    &&& new.risk.max_daily_loss_rate@ == (match env.max_daily_loss_rate {
        Some(v) => rust_decimal_parse(v@)->0,
        None => old.risk.max_daily_loss_rate@,
    })
    &&& new.risk.max_spread_rate == old.risk.max_spread_rate
    &&& new.risk.max_intraday_rise_rate == old.risk.max_intraday_rise_rate
    &&& new.risk.no_new_buy_after@ == old.risk.no_new_buy_after@
    &&& new.risk.restrict_same_sector == old.risk.restrict_same_sector
}

fn is_truthy(v: &str) -> (r: bool)
    ensures
        r == truthy(v@),
{
    lowercase_equals(v, "1") || lowercase_equals(v, "true") || lowercase_equals(v, "yes")
        || lowercase_equals(v, "y")
}

fn set_text(target: &mut String, var: &Option<String>)
    ensures
        final(target)@ == text_setting(*var, old(target)@),
{
    match var {
        Some(v) => {
            *target = v.clone();
        },
        None => {},
    }
}

fn set_flag(target: &mut bool, var: &Option<String>)
    ensures
        *final(target) == flag_setting(*var, *old(target)),
{
    match var {
        Some(v) => {
            *target = is_truthy(v.as_str());
        },
        None => {},
    }
}

fn parse_error(key: &str) -> (r: String)
    ensures
        r@ == "parse "@ + key@,
{
    let mut e = String::from_str("parse ");
    e.append(key);
    e
}

/// The variables that need parsing, parsed.
struct ParsedEnv {
    mode: Option<TradingMode>,
    buy_count: Option<i64>,
    position_ratio: Option<Dec>,
    loss_rate: Option<Dec>,
}

fn parse_env(env: &EnvOverrides) -> (r: Result<ParsedEnv, String>)
    ensures
        r is Err <==> env_error(*env) is Some,
        r matches Err(e) ==> e@ == env_error(*env)->0,
        r matches Ok(p) ==> {
            &&& p.mode == (match env.trading_mode {
                Some(v) => Some(parse_mode(v@)->Ok_0),
                None => None,
            })
            &&& p.buy_count == (match env.max_daily_buy_count {
                Some(v) => Some(i64_text_value(v@)->0 as i64),
                None => None,
            })
            &&& (match env.max_position_ratio {
                Some(v) => p.position_ratio matches Some(d) && d@ == rust_decimal_parse(v@)->0
                    && d.wf(),
                None => p.position_ratio is None,
            })
            &&& (match env.max_daily_loss_rate {
                Some(v) => p.loss_rate matches Some(d) && d@ == rust_decimal_parse(v@)->0 && d.wf(),
                None => p.loss_rate is None,
            })
        },
{
    let mode = match &env.trading_mode {
        Some(v) => match TradingMode::from_str(v.as_str()) {
            Ok(m) => Some(m),
            Err(e) => {
                return Err(e);
            },
        },
        None => None,
    };
    let buy_count = match &env.max_daily_buy_count {
        Some(v) => match parse_i64(v.as_str()) {
            Some(n) => Some(n),
            None => {
                return Err(parse_error("MAX_DAILY_BUY_COUNT"));
            },
        },
        None => None,
    };
    let position_ratio = match &env.max_position_ratio {
        Some(v) => match Dec::parse(v.as_str()) {
            Some(d) => Some(d),
            None => {
                return Err(parse_error("MAX_POSITION_RATIO"));
            },
        },
        None => None,
    };
    let loss_rate = match &env.max_daily_loss_rate {
        Some(v) => match Dec::parse(v.as_str()) {
            Some(d) => Some(d),
            None => {
                return Err(parse_error("MAX_DAILY_LOSS_RATE"));
            },
        },
        None => None,
    };
    Ok(ParsedEnv { mode, buy_count, position_ratio, loss_rate })
}

fn apply_app_and_kis(app: &mut AppSection, kis: &mut KisSection, env: &EnvOverrides)
    ensures
        final(app).env@ == text_setting(env.app_env, old(app).env@),
        final(app).trading_mode == old(app).trading_mode,
        final(app).dry_run == flag_setting(env.dry_run, old(app).dry_run),
        final(kis).base_url_mock@ == text_setting(env.kis_base_url_mock, old(kis).base_url_mock@),
        final(kis).base_url_real@ == text_setting(env.kis_base_url_real, old(kis).base_url_real@),
        final(kis).app_key@ == text_setting(env.kis_app_key, old(kis).app_key@),
        final(kis).app_secret@ == text_setting(env.kis_app_secret, old(kis).app_secret@),
        final(kis).account_no@ == text_setting(env.kis_account_no, old(kis).account_no@),
        final(kis).account_product_code@ == text_setting(
            env.kis_account_product_code,
            old(kis).account_product_code@,
        ),
        final(kis).enable_real_order == flag_setting(
            env.kis_enable_real_order,
            old(kis).enable_real_order,
        ),
{
    set_text(&mut app.env, &env.app_env);
    set_flag(&mut app.dry_run, &env.dry_run);
    set_text(&mut kis.base_url_mock, &env.kis_base_url_mock);
    set_text(&mut kis.base_url_real, &env.kis_base_url_real);
    set_text(&mut kis.app_key, &env.kis_app_key);
    set_text(&mut kis.app_secret, &env.kis_app_secret);
    set_text(&mut kis.account_no, &env.kis_account_no);
    set_text(&mut kis.account_product_code, &env.kis_account_product_code);
    set_flag(&mut kis.enable_real_order, &env.kis_enable_real_order);
}

fn apply_strategy_flags(strategy: &mut StrategySection, env: &EnvOverrides)
    ensures
        final(strategy).enable_opening_strategy == flag_setting(
            env.enable_opening_strategy,
            old(strategy).enable_opening_strategy,
        ),
        final(strategy).enable_pullback_strategy == flag_setting(
            env.enable_pullback_strategy,
            old(strategy).enable_pullback_strategy,
        ),
        final(strategy).enable_breakout_strategy == flag_setting(
            env.enable_breakout_strategy,
            old(strategy).enable_breakout_strategy,
        ),
        final(strategy).lookback_days == old(strategy).lookback_days,
        final(strategy).min_institution_buy_days == old(strategy).min_institution_buy_days,
        final(strategy).min_foreign_buy_days == old(strategy).min_foreign_buy_days,
        final(strategy).min_total_net_buy_amt_5d == old(strategy).min_total_net_buy_amt_5d,
        final(strategy).min_market_cap == old(strategy).min_market_cap,
        final(strategy).min_avg_trade_amount_20d == old(strategy).min_avg_trade_amount_20d,
        final(strategy).max_rise_rate_5d == old(strategy).max_rise_rate_5d,
        final(strategy).max_prev_day_rise_rate == old(strategy).max_prev_day_rise_rate,
{
    set_flag(&mut strategy.enable_opening_strategy, &env.enable_opening_strategy);
    set_flag(&mut strategy.enable_pullback_strategy, &env.enable_pullback_strategy);
    set_flag(&mut strategy.enable_breakout_strategy, &env.enable_breakout_strategy);
}

impl AppConfig {
    /// Puts the settings found in the environment over these. A trading mode, buy count or
    /// rate that does not parse is refused, and the settings are then left as they were.
    pub fn apply_env_overrides(&mut self, env: &EnvOverrides) -> (r: Result<(), String>)
        requires
            old(self).wf(),
        ensures
            r is Err <==> env_error(*env) is Some,
            r matches Err(e) ==> e@ == env_error(*env)->0 && *final(self) == *old(self),
            r is Ok ==> env_applied(*old(self), *final(self), *env) && final(self).wf(),
    {
        let parsed = match parse_env(env) {
            Ok(p) => p,
            Err(e) => {
                return Err(e);
            },
        };
        apply_app_and_kis(&mut self.app, &mut self.kis, env);
        if let Some(m) = parsed.mode {
            self.app.trading_mode = m;
        }
        set_text(&mut self.discord.webhook_url, &env.discord_webhook_url);
        set_text(&mut self.database.url, &env.database_url);
        apply_strategy_flags(&mut self.strategy, env);
        if let Some(n) = parsed.buy_count {
            self.risk.max_daily_buy_count = n;
        }
        if let Some(d) = parsed.position_ratio {
            self.risk.max_position_ratio = d;
        }
        if let Some(d) = parsed.loss_rate {
            self.risk.max_daily_loss_rate = d;
        }
        Ok(())
    }
}

/// Two settings agree field by field.
pub open spec fn same_settings(a: AppConfig, b: AppConfig) -> bool {
    &&& a.app.env@ == b.app.env@
    &&& a.app.trading_mode == b.app.trading_mode
    &&& a.app.dry_run == b.app.dry_run
    &&& a.kis.base_url_mock@ == b.kis.base_url_mock@
    &&& a.kis.base_url_real@ == b.kis.base_url_real@
    &&& a.kis.app_key@ == b.kis.app_key@
    &&& a.kis.app_secret@ == b.kis.app_secret@
    &&& a.kis.account_no@ == b.kis.account_no@
    &&& a.kis.account_product_code@ == b.kis.account_product_code@
    &&& a.kis.enable_real_order == b.kis.enable_real_order
    &&& a.discord.webhook_url@ == b.discord.webhook_url@
    &&& a.database.url@ == b.database.url@
    &&& a.strategy.enable_opening_strategy == b.strategy.enable_opening_strategy
    &&& a.strategy.enable_pullback_strategy == b.strategy.enable_pullback_strategy
    &&& a.strategy.enable_breakout_strategy == b.strategy.enable_breakout_strategy
    &&& a.strategy.lookback_days == b.strategy.lookback_days
    &&& a.strategy.min_institution_buy_days == b.strategy.min_institution_buy_days
    &&& a.strategy.min_foreign_buy_days == b.strategy.min_foreign_buy_days
    &&& a.strategy.min_total_net_buy_amt_5d == b.strategy.min_total_net_buy_amt_5d
    &&& a.strategy.min_market_cap == b.strategy.min_market_cap
    &&& a.strategy.min_avg_trade_amount_20d == b.strategy.min_avg_trade_amount_20d
    &&& a.strategy.max_rise_rate_5d@ == b.strategy.max_rise_rate_5d@
    &&& a.strategy.max_prev_day_rise_rate@ == b.strategy.max_prev_day_rise_rate@
    &&& a.risk.max_daily_buy_count == b.risk.max_daily_buy_count
    &&& a.risk.max_position_ratio@ == b.risk.max_position_ratio@
    &&& a.risk.max_daily_loss_rate@ == b.risk.max_daily_loss_rate@
    &&& a.risk.max_spread_rate@ == b.risk.max_spread_rate@
    &&& a.risk.max_intraday_rise_rate@ == b.risk.max_intraday_rise_rate@
    &&& a.risk.no_new_buy_after@ == b.risk.no_new_buy_after@
    &&& a.risk.restrict_same_sector == b.risk.restrict_same_sector
}

/// With no variable set, applying the environment changes nothing.
pub proof fn unset_environment_changes_nothing(old: AppConfig, new: AppConfig, env: EnvOverrides)
    requires
        env.app_env is None,
        env.trading_mode is None,
        env.dry_run is None,
        env.kis_base_url_mock is None,
        env.kis_base_url_real is None,
        env.kis_app_key is None,
        env.kis_app_secret is None,
        env.kis_account_no is None,
        env.kis_account_product_code is None,
        env.kis_enable_real_order is None,
        env.discord_webhook_url is None,
        env.database_url is None,
        env.enable_opening_strategy is None,
        env.enable_pullback_strategy is None,
        env.enable_breakout_strategy is None,
        env.max_daily_buy_count is None,
        env.max_position_ratio is None,
        env.max_daily_loss_rate is None,
        env_applied(old, new, env),
    ensures
        env_error(env) is None,
        same_settings(old, new),
{
}

} // verus!
