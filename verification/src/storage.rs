//! The stored form of the records: database columns as plain values, how they are read
//! back, and the order rows are handed out in.
use vstd::prelude::*;
use crate::clock::{chrono_date_text, chrono_parse_ymd, Date};
use crate::decimal::{decimal_text, rust_decimal_parse, without_negative_zero, Dec};
use crate::text::{is_white_space, views, white_space};
use crate::domain::candidate::{
    parse_status, parse_strategy, status_name_round_trip, status_text, strategy_name_round_trip,
    strategy_text,
};
use crate::domain::{
    CandidateStatus, FinancialRatio, InvestorFlowDaily, OhlcvDaily, StockBasic, StrategyType,
    TradeCandidate,
};

verus! {

/// A record that belongs to a trading day.
pub trait Dated {
    spec fn day(&self) -> int;

    fn trade_day(&self) -> (r: i32)
        ensures
            r as int == self.day(),
    ;
}

impl Dated for OhlcvDaily {
    open spec fn day(&self) -> int {
        self.trade_date.days_from_ce as int
    }

    fn trade_day(&self) -> (r: i32) {
        self.trade_date.days_from_ce
    }
}

impl Dated for InvestorFlowDaily {
    open spec fn day(&self) -> int {
        self.trade_date.days_from_ce as int
    }

    fn trade_day(&self) -> (r: i32) {
        self.trade_date.days_from_ce
    }
}

/// Oldest first.
pub open spec fn sorted_by_day<T: Dated>(s: Seq<T>) -> bool {
    forall|a: int, b: int| 0 <= a < b < s.len() ==> s[a].day() <= s[b].day()
}

/// `r` is `input` reordered by `perm` (`r[k]` is `input[perm[k]]`), and rows of the same
/// day keep their order.
pub open spec fn is_stable_day_reordering<T: Dated>(r: Seq<T>, input: Seq<T>, perm: Seq<int>) -> bool {
    &&& r.len() == input.len()
    &&& perm.len() == r.len()
    &&& forall|k: int|
        0 <= k < r.len() ==> 0 <= #[trigger] perm[k] < input.len() && r[k] == input[perm[k]]
    &&& forall|k: int, l: int| 0 <= k < l < r.len() ==> perm[k] != perm[l]
    &&& forall|k: int, l: int| 0 <= k < l < r.len() && r[k].day() == r[l].day() ==> perm[k] < perm[l]
}

/// Orders rows by trading day, oldest first; rows of the same day keep their order (a
/// stable sort).
pub fn sort_by_trade_date<T: Dated>(rows: Vec<T>) -> (r: Vec<T>)
    ensures
        sorted_by_day(r@),
        exists|perm: Seq<int>| is_stable_day_reordering(r@, rows@, perm),
{
    let ghost input = rows@;
    let n = rows.len();
    let mut rest = rows;
    let mut result: Vec<T> = Vec::new();
    let ghost mut perm: Seq<int> = Seq::empty();
    let mut i: usize = 0;
    while i < n
        invariant
            n == input.len(),
            i <= n,
            rest@ == input.skip(i as int),
            result@.len() == i,
            perm.len() == i,
            sorted_by_day(result@),
            forall|k: int|
                0 <= k < result@.len() ==> 0 <= #[trigger] perm[k] < i && result@[k] == input[perm[k]],
            forall|k: int, l: int| 0 <= k < l < result@.len() ==> perm[k] != perm[l],
            forall|k: int, l: int|
                0 <= k < l < result@.len() && result@[k].day() == result@[l].day() ==> perm[k]
                    < perm[l],
        decreases n - i,
    {
        assert(rest@[0] == input[i as int]);
        let c = rest.remove(0);
        assert(rest@ =~= input.skip(i + 1));
        let day = c.trade_day();
        let mut p: usize = 0;
        while p < result.len() && result[p].trade_day() <= day
            invariant
                p <= result@.len(),
                day == c.day(),
                forall|q: int| 0 <= q < p ==> (#[trigger] result@[q]).day() <= c.day(),
            decreases result@.len() - p,
        {
            p = p + 1;
        }
        let ghost old_result = result@;
        let ghost old_perm = perm;
        result.insert(p, c);
        proof {
            perm = old_perm.insert(p as int, i as int);
            assert(result@ == old_result.insert(p as int, c));
            assert forall|a: int, b: int| 0 <= a < b < result@.len() implies result@[a].day()
                <= result@[b].day() by {
                if a < p && b == p {
                } else if a == p {
                    assert(result@[b] == old_result[b - 1]);
                    assert(old_result[p as int].day() <= old_result[b - 1].day());
                } else if a < p && b > p {
                    assert(result@[b] == old_result[b - 1]);
                    assert(result@[a] == old_result[a]);
                } else if a > p {
                    assert(result@[b] == old_result[b - 1]);
                    assert(result@[a] == old_result[a - 1]);
                } else {
                    assert(result@[b] == old_result[b]);
                    assert(result@[a] == old_result[a]);
                }
            }
            assert forall|k: int| 0 <= k < result@.len() implies 0 <= #[trigger] perm[k] < i + 1
                && result@[k] == input[perm[k]] by {
                if k < p {
                    assert(perm[k] == old_perm[k]);
                } else if k > p {
                    assert(perm[k] == old_perm[k - 1]);
                }
            }
            assert forall|k: int, l: int| 0 <= k < l < result@.len() implies perm[k] != perm[l] by {
                if k < p && l > p {
                    assert(perm[l] == old_perm[l - 1]);
                } else if k > p {
                    assert(perm[l] == old_perm[l - 1]);
                    assert(perm[k] == old_perm[k - 1]);
                } else if l < p {
                } else if k == p {
                    assert(perm[l] == old_perm[l - 1]);
                }
            }
            assert forall|k: int, l: int|
                0 <= k < l < result@.len() && result@[k].day() == result@[l].day() implies perm[k]
                < perm[l] by {
                if k == p {
                    assert(result@[l] == old_result[l - 1]);
                    assert(old_result[p as int].day() <= old_result[l - 1].day());
                    assert(false);
                } else if l == p {
                    assert(perm[k] == old_perm[k]);
                } else if k > p {
                    assert(perm[l] == old_perm[l - 1]);
                    assert(perm[k] == old_perm[k - 1]);
                    assert(result@[l] == old_result[l - 1]);
                    assert(result@[k] == old_result[k - 1]);
                } else if l > p {
                    assert(perm[l] == old_perm[l - 1]);
                    assert(result@[l] == old_result[l - 1]);
                    assert(result@[k] == old_result[k]);
                } else {
                    assert(result@[l] == old_result[l]);
                    assert(result@[k] == old_result[k]);
                }
            }
        }
        i = i + 1;
    }
    proof {
        assert(is_stable_day_reordering(result@, input, perm));
    }
    result
}

/// The error of a stored date that does not read back.
pub open spec fn date_error(text: Seq<char>) -> Option<Seq<char>> {
    match chrono_parse_ymd(text) {
        Ok(_) => None,
        Err(e) => Some(e),
    }
}

/// The error of a stored decimal that does not read back.
pub open spec fn decimal_error(text: Seq<char>) -> Option<Seq<char>> {
    if rust_decimal_parse(text) is Some {
        None
    } else {
        Some("parse decimal: "@ + text)
    }
}

/// The error of an optional stored decimal.
pub open spec fn opt_decimal_error(text: Option<String>) -> Option<Seq<char>> {
    match text {
        Some(t) => decimal_error(t@),
        None => None,
    }
}

/// The first error of two.
pub open spec fn either(a: Option<Seq<char>>, b: Option<Seq<char>>) -> Option<Seq<char>> {
    if a is Some {
        a
    } else {
        b
    }
}

/// `d` is the date stored as `text`.
pub open spec fn date_is(d: Date, text: Seq<char>) -> bool {
    chrono_parse_ymd(text) == Ok::<int, Seq<char>>(d.days_from_ce as int) && d.wf()
}

/// `d` is the decimal stored as `text`.
pub open spec fn decimal_is(d: Dec, text: Seq<char>) -> bool {
    rust_decimal_parse(text) == Some(d@) && d.wf()
}

/// `d` is the optional decimal stored as `text`.
pub open spec fn opt_decimal_is(d: Option<Dec>, text: Option<String>) -> bool {
    match text {
        Some(t) => d matches Some(v) && decimal_is(v, t@),
        None => d is None,
    }
}

/// Reads a stored date back.
pub fn read_date(text: &String) -> (r: Result<Date, String>)
    ensures
        r is Err <==> date_error(text@) is Some,
        r matches Err(e) ==> date_error(text@) == Some(e@),
        r matches Ok(d) ==> date_is(d, text@),
{
    Date::parse_ymd(text.as_str())
}

/// Reads a stored decimal back.
pub fn read_decimal(text: &String) -> (r: Result<Dec, String>)
    ensures
        r is Err <==> decimal_error(text@) is Some,
        r matches Err(e) ==> decimal_error(text@) == Some(e@),
        r matches Ok(d) ==> decimal_is(d, text@),
{
    match Dec::parse(text.as_str()) {
        Some(d) => Ok(d),
        None => {
            let mut e = String::from_str("parse decimal: ");
            e.append(text.as_str());
            Err(e)
        },
    }
}

/// Reads an optional stored decimal back.
pub fn read_opt_decimal(text: &Option<String>) -> (r: Result<Option<Dec>, String>)
    ensures
        r is Err <==> opt_decimal_error(*text) is Some,
        r matches Err(e) ==> opt_decimal_error(*text) == Some(e@),
        r matches Ok(d) ==> opt_decimal_is(d, *text),
{
    match text {
        Some(t) => match read_decimal(t) {
            Ok(d) => Ok(Some(d)),
            Err(e) => Err(e),
        },
        None => Ok(None),
    }
}

/// A stored stock row; the flags are integers, non-zero meaning set.
#[derive(Clone, Debug)]
pub struct StockRecord {
    pub stock_code: String,
    pub stock_name: String,
    pub market: Option<String>,
    pub sector: Option<String>,
    pub is_preferred: i64,
    pub is_etf: i64,
    pub is_etn: i64,
    pub is_spac: i64,
    pub is_trading_halted: i64,
    pub is_administrative_issue: i64,
    pub is_warning: i64,
}

/// The stock a stored row holds.
pub fn stock_from_record(rec: StockRecord) -> (r: StockBasic)
    ensures
        r.stock_code@ == rec.stock_code@,
        r.stock_name@ == rec.stock_name@,
        r.market == rec.market,
        r.sector == rec.sector,
        r.is_preferred == (rec.is_preferred != 0),
        r.is_etf == (rec.is_etf != 0),
        r.is_etn == (rec.is_etn != 0),
        r.is_spac == (rec.is_spac != 0),
        r.is_trading_halted == (rec.is_trading_halted != 0),
        r.is_administrative_issue == (rec.is_administrative_issue != 0),
        r.is_warning == (rec.is_warning != 0),
{
    StockBasic {
        stock_code: rec.stock_code,
        stock_name: rec.stock_name,
        market: rec.market,
        sector: rec.sector,
        is_preferred: rec.is_preferred != 0,
        is_etf: rec.is_etf != 0,
        is_etn: rec.is_etn != 0,
        is_spac: rec.is_spac != 0,
        is_trading_halted: rec.is_trading_halted != 0,
        is_administrative_issue: rec.is_administrative_issue != 0,
        is_warning: rec.is_warning != 0,
    }
}

/// A stored candle row; the date and prices are text.
#[derive(Clone, Debug)]
pub struct OhlcvRecord {
    pub trade_date: String,
    pub stock_code: String,
    pub open_price: String,
    pub high_price: String,
    pub low_price: String,
    pub close_price: String,
    pub volume: i64,
    pub trade_amount: i64,
}

/// The first column of a stored candle that does not read back.
pub open spec fn ohlcv_error(rec: OhlcvRecord) -> Option<Seq<char>> {
    either(
        date_error(rec.trade_date@),
        either(
            decimal_error(rec.open_price@),
            either(
                decimal_error(rec.high_price@),
                either(decimal_error(rec.low_price@), decimal_error(rec.close_price@)),
            ),
        ),
    )
}

/// The candle a stored row holds, or the error of its first unreadable column.
pub fn ohlcv_from_record(rec: OhlcvRecord) -> (r: Result<OhlcvDaily, String>)
    ensures
        r is Err <==> ohlcv_error(rec) is Some,
        r matches Err(e) ==> ohlcv_error(rec) == Some(e@),
        r matches Ok(row) ==> {
            &&& date_is(row.trade_date, rec.trade_date@)
            &&& row.stock_code@ == rec.stock_code@
            &&& decimal_is(row.open_price, rec.open_price@)
            &&& decimal_is(row.high_price, rec.high_price@)
            &&& decimal_is(row.low_price, rec.low_price@)
            &&& decimal_is(row.close_price, rec.close_price@)
            &&& row.volume == rec.volume
            &&& row.trade_amount == rec.trade_amount
        },
{
    let trade_date = match read_date(&rec.trade_date) {
        Ok(d) => d,
        Err(e) => {
            return Err(e);
        },
    };
    let open_price = match read_decimal(&rec.open_price) {
        Ok(d) => d,
        Err(e) => {
            return Err(e);
        },
    };
    let high_price = match read_decimal(&rec.high_price) {
        Ok(d) => d,
        Err(e) => {
            return Err(e);
        },
    };
    let low_price = match read_decimal(&rec.low_price) {
        Ok(d) => d,
        Err(e) => {
            return Err(e);
        },
    };
    let close_price = match read_decimal(&rec.close_price) {
        Ok(d) => d,
        Err(e) => {
            return Err(e);
        },
    };
    Ok(
        OhlcvDaily {
            trade_date,
            stock_code: rec.stock_code,
            open_price,
            high_price,
            low_price,
            close_price,
            volume: rec.volume,
            trade_amount: rec.trade_amount,
        },
    )
}

/// A stored investor flow row; the date is text.
#[derive(Clone, Debug)]
pub struct FlowRecord {
    pub trade_date: String,
    pub stock_code: String,
    pub institution_net_buy_amt: i64,
    pub foreign_net_buy_amt: i64,
    pub individual_net_buy_amt: i64,
    pub institution_net_buy_qty: Option<i64>,
    pub foreign_net_buy_qty: Option<i64>,
    pub individual_net_buy_qty: Option<i64>,
}

/// The flow a stored row holds, or the error of its date.
pub fn flow_from_record(rec: FlowRecord) -> (r: Result<InvestorFlowDaily, String>)
    ensures
        r is Err <==> date_error(rec.trade_date@) is Some,
        r matches Err(e) ==> date_error(rec.trade_date@) == Some(e@),
        r matches Ok(row) ==> {
            &&& date_is(row.trade_date, rec.trade_date@)
            &&& row.stock_code@ == rec.stock_code@
            &&& row.institution_net_buy_amt == rec.institution_net_buy_amt
            &&& row.foreign_net_buy_amt == rec.foreign_net_buy_amt
            &&& row.individual_net_buy_amt == rec.individual_net_buy_amt
            &&& row.institution_net_buy_qty == rec.institution_net_buy_qty
            &&& row.foreign_net_buy_qty == rec.foreign_net_buy_qty
            &&& row.individual_net_buy_qty == rec.individual_net_buy_qty
        },
{
    let trade_date = match read_date(&rec.trade_date) {
        Ok(d) => d,
        Err(e) => {
            return Err(e);
        },
    };
    Ok(
        InvestorFlowDaily {
            trade_date,
            stock_code: rec.stock_code,
            institution_net_buy_amt: rec.institution_net_buy_amt,
            foreign_net_buy_amt: rec.foreign_net_buy_amt,
            individual_net_buy_amt: rec.individual_net_buy_amt,
            institution_net_buy_qty: rec.institution_net_buy_qty,
            foreign_net_buy_qty: rec.foreign_net_buy_qty,
            individual_net_buy_qty: rec.individual_net_buy_qty,
        },
    )
}

/// A stored financial row; the debt ratio is text and the impairment flag an integer.
#[derive(Clone, Debug)]
pub struct FinancialRecord {
    pub stock_code: String,
    pub debt_ratio: Option<String>,
    pub operating_profit: Option<i64>,
    pub quarterly_operating_profit: Option<i64>,
    pub capital_impairment: Option<i64>,
}

/// The financial ratio a stored row holds, or the error of its debt ratio.
pub fn financial_from_record(rec: FinancialRecord) -> (r: Result<FinancialRatio, String>)
    ensures
        r is Err <==> opt_decimal_error(rec.debt_ratio) is Some,
        r matches Err(e) ==> opt_decimal_error(rec.debt_ratio) == Some(e@),
        r matches Ok(f) ==> {
            &&& f.stock_code@ == rec.stock_code@
            &&& opt_decimal_is(f.debt_ratio, rec.debt_ratio)
            &&& f.operating_profit == rec.operating_profit
            &&& f.quarterly_operating_profit == rec.quarterly_operating_profit
            &&& f.capital_impairment == (match rec.capital_impairment {
                Some(v) => Some(v != 0),
                None => None,
            })
            &&& f.wf()
        },
{
    let debt_ratio = match read_opt_decimal(&rec.debt_ratio) {
        Ok(d) => d,
        Err(e) => {
            return Err(e);
        },
    };
    let capital_impairment = match rec.capital_impairment {
        Some(v) => Some(v != 0),
        None => None,
    };
    Ok(
        FinancialRatio {
            stock_code: rec.stock_code,
            debt_ratio,
            operating_profit: rec.operating_profit,
            quarterly_operating_profit: rec.quarterly_operating_profit,
            capital_impairment,
        },
    )
}

/// A stored candidate row; the date, scores, prices, strategy and status are text.
#[derive(Clone, Debug)]
pub struct CandidateRecord {
    pub trade_date: String,
    pub stock_code: String,
    pub stock_name: String,
    pub supply_score: String,
    pub liquidity_score: String,
    pub trend_score: String,
    pub risk_score: String,
    pub final_score: String,
    pub inst_buy_days: i32,
    pub foreign_buy_days: i32,
    pub inst_net_buy_amt_5d: i64,
    pub foreign_net_buy_amt_5d: i64,
    pub total_net_buy_amt_5d: i64,
    pub market_cap: Option<i64>,
    pub avg_trade_amount_20d: Option<i64>,
    pub prev_close: String,
    pub prev_high: String,
    pub prev_low: String,
    pub ma5: Option<String>,
    pub ma20: Option<String>,
    pub breakout_price: Option<String>,
    pub pullback_price: Option<String>,
    pub stop_loss_price: Option<String>,
    pub target_price: Option<String>,
    pub strategy_type: String,
    pub status: String,
}

/// The first of the five stored scores that does not read back.
pub open spec fn scores_error(rec: CandidateRecord) -> Option<Seq<char>> {
    either(
        decimal_error(rec.supply_score@),
        either(
            decimal_error(rec.liquidity_score@),
            either(
                decimal_error(rec.trend_score@),
                either(decimal_error(rec.risk_score@), decimal_error(rec.final_score@)),
            ),
        ),
    )
}

/// The first of the three stored previous-day prices that does not read back.
pub open spec fn prices_error(rec: CandidateRecord) -> Option<Seq<char>> {
    either(
        decimal_error(rec.prev_close@),
        either(decimal_error(rec.prev_high@), decimal_error(rec.prev_low@)),
    )
}

/// The first of the six stored optional price levels that does not read back.
pub open spec fn levels_error(rec: CandidateRecord) -> Option<Seq<char>> {
    either(
        opt_decimal_error(rec.ma5),
        either(
            opt_decimal_error(rec.ma20),
            either(
                opt_decimal_error(rec.breakout_price),
                either(
                    opt_decimal_error(rec.pullback_price),
                    either(opt_decimal_error(rec.stop_loss_price), opt_decimal_error(rec.target_price)),
                ),
            ),
        ),
    )
}

/// The error of a stored strategy or status name that does not parse.
pub open spec fn names_error(rec: CandidateRecord) -> Option<Seq<char>> {
    if parse_strategy(rec.strategy_type@) is Err {
        Some(parse_strategy(rec.strategy_type@)->Err_0)
    } else if parse_status(rec.status@) is Err {
        Some(parse_status(rec.status@)->Err_0)
    } else {
        None
    }
}

/// The first column of a stored candidate that does not read back, in column order.
pub open spec fn candidate_error(rec: CandidateRecord) -> Option<Seq<char>> {
    either(
        date_error(rec.trade_date@),
        either(
            scores_error(rec),
            either(prices_error(rec), either(levels_error(rec), names_error(rec))),
        ),
    )
}

/// `c` is the candidate a stored row holds.
pub open spec fn candidate_is(c: TradeCandidate, rec: CandidateRecord) -> bool {
    &&& date_is(c.trade_date, rec.trade_date@)
    &&& c.stock_code@ == rec.stock_code@
    &&& c.stock_name@ == rec.stock_name@
    &&& decimal_is(c.supply_score, rec.supply_score@)
    &&& decimal_is(c.liquidity_score, rec.liquidity_score@)
    &&& decimal_is(c.trend_score, rec.trend_score@)
    &&& decimal_is(c.risk_score, rec.risk_score@)
    &&& decimal_is(c.final_score, rec.final_score@)
    &&& c.inst_buy_days == rec.inst_buy_days
    &&& c.foreign_buy_days == rec.foreign_buy_days
    &&& c.inst_net_buy_amt_5d == rec.inst_net_buy_amt_5d
    &&& c.foreign_net_buy_amt_5d == rec.foreign_net_buy_amt_5d
    &&& c.total_net_buy_amt_5d == rec.total_net_buy_amt_5d
    &&& c.market_cap == rec.market_cap
    &&& c.avg_trade_amount_20d == rec.avg_trade_amount_20d
    &&& decimal_is(c.prev_close, rec.prev_close@)
    &&& decimal_is(c.prev_high, rec.prev_high@)
    &&& decimal_is(c.prev_low, rec.prev_low@)
    &&& opt_decimal_is(c.ma5, rec.ma5)
    &&& opt_decimal_is(c.ma20, rec.ma20)
    &&& opt_decimal_is(c.breakout_price, rec.breakout_price)
    &&& opt_decimal_is(c.pullback_price, rec.pullback_price)
    &&& opt_decimal_is(c.stop_loss_price, rec.stop_loss_price)
    &&& opt_decimal_is(c.target_price, rec.target_price)
    &&& parse_strategy(rec.strategy_type@) == Ok::<StrategyType, Seq<char>>(c.strategy_type)
    &&& parse_status(rec.status@) == Ok::<CandidateStatus, Seq<char>>(c.status)
}

fn read_scores(rec: &CandidateRecord) -> (r: Result<(Dec, Dec, Dec, Dec, Dec), String>)
    ensures
        r is Err <==> scores_error(*rec) is Some,
        r matches Err(e) ==> scores_error(*rec) == Some(e@),
        r matches Ok(v) ==> {
            &&& decimal_is(v.0, rec.supply_score@)
            &&& decimal_is(v.1, rec.liquidity_score@)
            &&& decimal_is(v.2, rec.trend_score@)
            &&& decimal_is(v.3, rec.risk_score@)
            &&& decimal_is(v.4, rec.final_score@)
        },
{
    let supply = match read_decimal(&rec.supply_score) {
        Ok(d) => d,
        Err(e) => {
            return Err(e);
        },
    };
    let liquidity = match read_decimal(&rec.liquidity_score) {
        Ok(d) => d,
        Err(e) => {
            return Err(e);
        },
    };
    let trend = match read_decimal(&rec.trend_score) {
        Ok(d) => d,
        Err(e) => {
            return Err(e);
        },
    };
    let risk = match read_decimal(&rec.risk_score) {
        Ok(d) => d,
        Err(e) => {
            return Err(e);
        },
    };
    let total = match read_decimal(&rec.final_score) {
        Ok(d) => d,
        Err(e) => {
            return Err(e);
        },
    };
    Ok((supply, liquidity, trend, risk, total))
}

fn read_prices(rec: &CandidateRecord) -> (r: Result<(Dec, Dec, Dec), String>)
    ensures
        r is Err <==> prices_error(*rec) is Some,
        r matches Err(e) ==> prices_error(*rec) == Some(e@),
        r matches Ok(v) ==> {
            &&& decimal_is(v.0, rec.prev_close@)
            &&& decimal_is(v.1, rec.prev_high@)
            &&& decimal_is(v.2, rec.prev_low@)
        },
{
    let close = match read_decimal(&rec.prev_close) {
        Ok(d) => d,
        Err(e) => {
            return Err(e);
        },
    };
    let high = match read_decimal(&rec.prev_high) {
        Ok(d) => d,
        Err(e) => {
            return Err(e);
        },
    };
    let low = match read_decimal(&rec.prev_low) {
        Ok(d) => d,
        Err(e) => {
            return Err(e);
        },
    };
    Ok((close, high, low))
}

fn read_levels(rec: &CandidateRecord) -> (r: Result<
    (Option<Dec>, Option<Dec>, Option<Dec>, Option<Dec>, Option<Dec>, Option<Dec>),
    String,
>)
    ensures
        r is Err <==> levels_error(*rec) is Some,
        r matches Err(e) ==> levels_error(*rec) == Some(e@),
        r matches Ok(v) ==> {
            &&& opt_decimal_is(v.0, rec.ma5)
            &&& opt_decimal_is(v.1, rec.ma20)
            &&& opt_decimal_is(v.2, rec.breakout_price)
            &&& opt_decimal_is(v.3, rec.pullback_price)
            &&& opt_decimal_is(v.4, rec.stop_loss_price)
            &&& opt_decimal_is(v.5, rec.target_price)
        },
{
    let ma5 = match read_opt_decimal(&rec.ma5) {
        Ok(d) => d,
        Err(e) => {
            return Err(e);
        },
    };
    let ma20 = match read_opt_decimal(&rec.ma20) {
        Ok(d) => d,
        Err(e) => {
            return Err(e);
        },
    };
    let breakout = match read_opt_decimal(&rec.breakout_price) {
        Ok(d) => d,
        Err(e) => {
            return Err(e);
        },
    };
    let pullback = match read_opt_decimal(&rec.pullback_price) {
        Ok(d) => d,
        Err(e) => {
            return Err(e);
        },
    };
    let stop_loss = match read_opt_decimal(&rec.stop_loss_price) {
        Ok(d) => d,
        Err(e) => {
            return Err(e);
        },
    };
    let target = match read_opt_decimal(&rec.target_price) {
        Ok(d) => d,
        Err(e) => {
            return Err(e);
        },
    };
    Ok((ma5, ma20, breakout, pullback, stop_loss, target))
}

/// The candidate a stored row holds, or the error of its first unreadable column.
pub fn candidate_from_record(rec: CandidateRecord) -> (r: Result<TradeCandidate, String>)
    ensures
        r is Err <==> candidate_error(rec) is Some,
        r matches Err(e) ==> candidate_error(rec) == Some(e@),
        r matches Ok(c) ==> candidate_is(c, rec) && c.wf(),
{
    let trade_date = match read_date(&rec.trade_date) {
        Ok(d) => d,
        Err(e) => {
            return Err(e);
        },
    };
    let scores = match read_scores(&rec) {
        Ok(v) => v,
        Err(e) => {
            return Err(e);
        },
    };
    let prices = match read_prices(&rec) {
        Ok(v) => v,
        Err(e) => {
            return Err(e);
        },
    };
    let levels = match read_levels(&rec) {
        Ok(v) => v,
        Err(e) => {
            return Err(e);
        },
    };
    let strategy_type = match StrategyType::from_str(rec.strategy_type.as_str()) {
        Ok(s) => s,
        Err(e) => {
            return Err(e);
        },
    };
    let status = match CandidateStatus::from_str(rec.status.as_str()) {
        Ok(s) => s,
        Err(e) => {
            return Err(e);
        },
    };
    Ok(
        TradeCandidate {
            trade_date,
            stock_code: rec.stock_code,
            stock_name: rec.stock_name,
            supply_score: scores.0,
            liquidity_score: scores.1,
            trend_score: scores.2,
            risk_score: scores.3,
            final_score: scores.4,
            inst_buy_days: rec.inst_buy_days,
            foreign_buy_days: rec.foreign_buy_days,
            inst_net_buy_amt_5d: rec.inst_net_buy_amt_5d,
            foreign_net_buy_amt_5d: rec.foreign_net_buy_amt_5d,
            total_net_buy_amt_5d: rec.total_net_buy_amt_5d,
            market_cap: rec.market_cap,
            avg_trade_amount_20d: rec.avg_trade_amount_20d,
            prev_close: prices.0,
            prev_high: prices.1,
            prev_low: prices.2,
            ma5: levels.0,
            ma20: levels.1,
            breakout_price: levels.2,
            pullback_price: levels.3,
            stop_loss_price: levels.4,
            target_price: levels.5,
            strategy_type,
            status,
        },
    )
}

/// The pieces of `s` between the separators `sep`, in order: one more than separators.
pub open spec fn split_pieces(s: Seq<char>, sep: char) -> Seq<Seq<char>>
    decreases s.len(),
{
    if s.len() == 0 {
        seq![Seq::empty()]
    } else {
        let prev = split_pieces(s.drop_last(), sep);
        if s.last() == sep {
            prev.push(Seq::empty())
        } else {
            prev.update(prev.len() - 1, prev.last().push(s.last()))
        }
    }
}

/// `s` without its leading white space.
pub open spec fn trim_start(s: Seq<char>) -> Seq<char>
    decreases s.len(),
{
    if s.len() > 0 && white_space(s[0]) {
        trim_start(s.drop_first())
    } else {
        s
    }
}

/// `s` without its trailing white space.
pub open spec fn trim_end(s: Seq<char>) -> Seq<char>
    decreases s.len(),
{
    if s.len() > 0 && white_space(s.last()) {
        trim_end(s.drop_last())
    } else {
        s
    }
}

/// `s` without white space at either end, as `str::trim`.
pub open spec fn trimmed(s: Seq<char>) -> Seq<char> {
    trim_end(trim_start(s))
}

/// The pieces trimmed, the empty ones left out.
pub open spec fn nonblank_trimmed(pieces: Seq<Seq<char>>) -> Seq<Seq<char>>
    decreases pieces.len(),
{
    if pieces.len() == 0 {
        Seq::empty()
    } else {
        let rest = nonblank_trimmed(pieces.drop_last());
        if trimmed(pieces.last()).len() > 0 {
            rest.push(trimmed(pieces.last()))
        } else {
            rest
        }
    }
}

/// The statements of a schema: the text split at `;`, each piece trimmed, empty ones left
/// out.
pub open spec fn statements_of(text: Seq<char>) -> Seq<Seq<char>> {
    nonblank_trimmed(split_pieces(text, ';'))
}

proof fn lemma_split_pieces_nonempty(s: Seq<char>, sep: char)
    ensures
        split_pieces(s, sep).len() >= 1,
    decreases s.len(),
{
    if s.len() > 0 {
        lemma_split_pieces_nonempty(s.drop_last(), sep);
    }
}

proof fn lemma_trim_start_skip(t: Seq<char>, k: int)
    requires
        0 <= k <= t.len(),
        forall|j: int| 0 <= j < k ==> white_space(#[trigger] t[j]),
        k == t.len() || !white_space(t[k]),
    ensures
        trim_start(t) == t.skip(k),
    decreases k,
{
    if k == 0 {
        assert(t.skip(0) =~= t);
    } else {
        let u = t.drop_first();
        assert forall|j: int| 0 <= j < k - 1 implies white_space(#[trigger] u[j]) by {
            assert(u[j] == t[j + 1]);
        }
        if k < t.len() {
            assert(u[k - 1] == t[k]);
        }
        lemma_trim_start_skip(u, k - 1);
        assert(u.skip(k - 1) =~= t.skip(k));
    }
}

proof fn lemma_trim_end_take(t: Seq<char>, k: int)
    requires
        0 <= k <= t.len(),
        forall|j: int| k <= j < t.len() ==> white_space(#[trigger] t[j]),
        k == 0 || !white_space(t[k - 1]),
    ensures
        trim_end(t) == t.take(k),
    decreases t.len() - k,
{
    if k == t.len() {
        assert(t.take(k) =~= t);
    } else {
        let u = t.drop_last();
        assert(white_space(t[t.len() - 1]));
        assert forall|j: int| k <= j < u.len() implies white_space(#[trigger] u[j]) by {
            assert(u[j] == t[j]);
        }
        if k > 0 {
            assert(u[k - 1] == t[k - 1]);
        }
        lemma_trim_end_take(u, k);
        assert(u.take(k) =~= t.take(k));
    }
}

/// `text[start..end]` trimmed, by its bounds.
fn trim_bounds(text: &str, start: usize, end: usize) -> (r: (usize, usize))
    requires
        start <= end <= text@.len(),
    ensures
        start <= r.0 <= r.1 <= end,
        trimmed(text@.subrange(start as int, end as int)) == text@.subrange(r.0 as int, r.1 as int),
{
    let ghost p = text@.subrange(start as int, end as int);
    let mut lo = start;
    while lo < end && is_white_space(text.get_char(lo))
        invariant
            start <= lo <= end,
            end <= text@.len(),
            p == text@.subrange(start as int, end as int),
            forall|j: int| start <= j < lo ==> white_space(#[trigger] text@[j]),
        decreases end - lo,
    {
        lo = lo + 1;
    }
    proof {
        assert forall|j: int| 0 <= j < lo - start implies white_space(#[trigger] p[j]) by {
            assert(p[j] == text@[start + j]);
        }
        if lo < end {
            assert(p[lo - start] == text@[lo as int]);
        }
        lemma_trim_start_skip(p, lo - start);
    }
    let ghost q = p.skip(lo - start);
    assert(q =~= text@.subrange(lo as int, end as int));
    let mut hi = end;
    while hi > lo && is_white_space(text.get_char(hi - 1))
        invariant
            lo <= hi <= end,
            end <= text@.len(),
            q == text@.subrange(lo as int, end as int),
            forall|j: int| hi <= j < end ==> white_space(#[trigger] text@[j]),
        decreases hi - lo,
    {
        hi = hi - 1;
    }
    proof {
        assert forall|j: int| hi - lo <= j < q.len() implies white_space(#[trigger] q[j]) by {
            assert(q[j] == text@[lo + j]);
        }
        if hi > lo {
            assert(q[hi - lo - 1] == text@[hi - 1]);
        }
        lemma_trim_end_take(q, hi - lo);
        assert(q.take(hi - lo) =~= text@.subrange(lo as int, hi as int));
    }
    (lo, hi)
}

/// The statements of a schema text: split at `;`, trimmed, empty ones left out.
pub fn migration_statements(text: &str) -> (r: Vec<String>)
    ensures
        views(r@) == statements_of(text@),
{
    let n = text.unicode_len();
    let mut out: Vec<String> = Vec::new();
    let mut start: usize = 0;
    let mut i: usize = 0;
    proof {
        assert(text@.take(0) =~= Seq::<char>::empty());
        assert(split_pieces(text@.take(0), ';') =~= seq![Seq::<char>::empty()]);
        assert(text@.subrange(0, 0) =~= Seq::<char>::empty());
        assert(split_pieces(text@.take(0), ';').drop_last() =~= Seq::<Seq<char>>::empty());
        assert(views(out@) =~= Seq::<Seq<char>>::empty());
    }
    while i < n
        invariant
            n == text@.len(),
            start <= i <= n,
            split_pieces(text@.take(i as int), ';').len() >= 1,
            split_pieces(text@.take(i as int), ';').last() == text@.subrange(start as int, i as int),
            views(out@) == nonblank_trimmed(split_pieces(text@.take(i as int), ';').drop_last()),
        decreases n - i,
    {
        let ghost prev = split_pieces(text@.take(i as int), ';');
        assert(text@.take(i + 1).drop_last() =~= text@.take(i as int));
        assert(text@.take(i + 1).last() == text@[i as int]);
        let c = text.get_char(i);
        if c == ';' {
            let (lo, hi) = trim_bounds(text, start, i);
            let ghost before = views(out@);
            let piece = text.substring_char(lo, hi);
            if lo < hi {
                out.push(String::from_str(piece));
            }
            proof {
                let next = split_pieces(text@.take(i + 1), ';');
                assert(next == prev.push(Seq::<char>::empty()));
                assert(next.drop_last() =~= prev);
                assert(prev.drop_last().push(prev.last()) =~= prev);
                assert(trimmed(prev.last()) == piece@);
                if lo < hi {
                    assert(views(out@) =~= before.push(piece@));
                } else {
                    assert(views(out@) =~= before);
                }
                assert(text@.subrange(i + 1, i + 1) =~= Seq::<char>::empty());
            }
            start = i + 1;
        } else {
            proof {
                let next = split_pieces(text@.take(i + 1), ';');
                assert(next == prev.update(prev.len() - 1, prev.last().push(text@[i as int])));
                assert(next.drop_last() =~= prev.drop_last());
                assert(text@.subrange(start as int, i + 1) =~= text@.subrange(start as int, i as int).push(
                    text@[i as int],
                ));
                lemma_split_pieces_nonempty(text@.take(i + 1), ';');
            }
        }
        i = i + 1;
    }
    let ghost all = split_pieces(text@.take(n as int), ';');
    let ghost before = views(out@);
    let (lo, hi) = trim_bounds(text, start, n);
    let piece = text.substring_char(lo, hi);
    if lo < hi {
        out.push(String::from_str(piece));
    }
    proof {
        assert(text@.take(n as int) =~= text@);
        assert(all.drop_last().push(all.last()) =~= all);
        assert(trimmed(all.last()) == piece@);
        if lo < hi {
            assert(views(out@) =~= before.push(piece@));
        } else {
            assert(views(out@) =~= before);
        }
    }
    out
}

/// The file a SQLite URL names: the URL without its `sqlite://` prefix; none for an
/// in-memory database.
pub open spec fn sqlite_path_of(url: Seq<char>) -> Option<Seq<char>> {
    let path = if "sqlite://"@.is_prefix_of(url) {
        url.skip("sqlite://"@.len() as int)
    } else {
        url
    };
    if path == ":memory:"@ {
        None
    } else {
        Some(path)
    }
}

/// The file a SQLite URL names, whose folder must exist before connecting; none for an
/// in-memory database.
pub fn sqlite_file_path(url: &str) -> (r: Option<String>)
    ensures
        r is None <==> sqlite_path_of(url@) is None,
        r matches Some(p) ==> sqlite_path_of(url@) == Some(p@),
{
    let prefix = "sqlite://";
    let plen = prefix.unicode_len();
    let n = url.unicode_len();
    let mut has_prefix = plen <= n;
    let mut i: usize = 0;
    while has_prefix && i < plen
        invariant
            plen == prefix@.len(),
            n == url@.len(),
            has_prefix ==> plen <= n,
            i <= plen,
            has_prefix ==> forall|j: int| 0 <= j < i ==> prefix@[j] == url@[j],
            !has_prefix ==> !prefix@.is_prefix_of(url@),
        decreases plen - i,
    {
        if prefix.get_char(i) != url.get_char(i) {
            has_prefix = false;
        }
        i = i + 1;
    }
    proof {
        if has_prefix {
            assert(url@.take(plen as int) =~= prefix@);
        }
    }
    let path = if has_prefix {
        url.substring_char(plen, n)
    } else {
        url
    };
    assert(has_prefix ==> path@ =~= url@.skip(plen as int));
    if crate::text::text_equals(path, ":memory:") {
        None
    } else {
        Some(String::from_str(path))
    }
}

/// `text` is how an optional decimal is stored: its text, or nothing.
pub open spec fn opt_text_is(text: Option<String>, d: Option<Dec>) -> bool {
    match (text, d) {
        (Some(t), Some(v)) => t@ == decimal_text(v),
        (None, None) => true,
        _ => false,
    }
}

/// `rec` is the stored row of candidate `c`: dates and decimals as their texts, which chrono
/// and rust_decimal read back, the strategy and status by name, every other column as it is.
pub open spec fn stored_as(rec: CandidateRecord, c: TradeCandidate) -> bool {
    &&& rec.trade_date@ == chrono_date_text(c.trade_date.days_from_ce as int)
    &&& rec.stock_code@ == c.stock_code@
    &&& rec.stock_name@ == c.stock_name@
    &&& rec.supply_score@ == decimal_text(c.supply_score)
    &&& rec.liquidity_score@ == decimal_text(c.liquidity_score)
    &&& rec.trend_score@ == decimal_text(c.trend_score)
    &&& rec.risk_score@ == decimal_text(c.risk_score)
    &&& rec.final_score@ == decimal_text(c.final_score)
    &&& rec.inst_buy_days == c.inst_buy_days
    &&& rec.foreign_buy_days == c.foreign_buy_days
    &&& rec.inst_net_buy_amt_5d == c.inst_net_buy_amt_5d
    &&& rec.foreign_net_buy_amt_5d == c.foreign_net_buy_amt_5d
    &&& rec.total_net_buy_amt_5d == c.total_net_buy_amt_5d
    &&& rec.market_cap == c.market_cap
    &&& rec.avg_trade_amount_20d == c.avg_trade_amount_20d
    &&& rec.prev_close@ == decimal_text(c.prev_close)
    &&& rec.prev_high@ == decimal_text(c.prev_high)
    &&& rec.prev_low@ == decimal_text(c.prev_low)
    &&& opt_text_is(rec.ma5, c.ma5)
    &&& opt_text_is(rec.ma20, c.ma20)
    &&& opt_text_is(rec.breakout_price, c.breakout_price)
    &&& opt_text_is(rec.pullback_price, c.pullback_price)
    &&& opt_text_is(rec.stop_loss_price, c.stop_loss_price)
    &&& opt_text_is(rec.target_price, c.target_price)
    &&& rec.strategy_type@ == strategy_text(c.strategy_type)
    &&& rec.status@ == status_text(c.status)
    &&& texts_read_back(c)
}

fn opt_text(d: Option<Dec>) -> (r: Option<String>)
    requires
        d matches Some(v) ==> v.wf(),
    ensures
        opt_text_is(r, d),
        opt_reads_back(d),
{
    match d {
        Some(v) => Some(v.to_text()),
        None => None,
    }
}

/// The stored row of a candidate.
pub fn candidate_record(c: &TradeCandidate) -> (r: CandidateRecord)
    requires
        c.wf(),
        c.trade_date.wf(),
    ensures
        stored_as(r, *c),
{
    CandidateRecord {
        trade_date: c.trade_date.to_text(),
        stock_code: c.stock_code.clone(),
        stock_name: c.stock_name.clone(),
        supply_score: c.supply_score.to_text(),
        liquidity_score: c.liquidity_score.to_text(),
        trend_score: c.trend_score.to_text(),
        risk_score: c.risk_score.to_text(),
        final_score: c.final_score.to_text(),
        inst_buy_days: c.inst_buy_days,
        foreign_buy_days: c.foreign_buy_days,
        inst_net_buy_amt_5d: c.inst_net_buy_amt_5d,
        foreign_net_buy_amt_5d: c.foreign_net_buy_amt_5d,
        total_net_buy_amt_5d: c.total_net_buy_amt_5d,
        market_cap: c.market_cap,
        avg_trade_amount_20d: c.avg_trade_amount_20d,
        prev_close: c.prev_close.to_text(),
        prev_high: c.prev_high.to_text(),
        prev_low: c.prev_low.to_text(),
        ma5: opt_text(c.ma5),
        ma20: opt_text(c.ma20),
        breakout_price: opt_text(c.breakout_price),
        pullback_price: opt_text(c.pullback_price),
        stop_loss_price: opt_text(c.stop_loss_price),
        target_price: opt_text(c.target_price),
        strategy_type: String::from_str(c.strategy_type.as_str()),
        status: String::from_str(c.status.as_str()),
    }
}

/// The text of `d` parses back to `d`, a negative zero as zero.
pub open spec fn reads_back(d: Dec) -> bool {
    rust_decimal_parse(decimal_text(d)) == Some(without_negative_zero(d)@)
}

/// An optional decimal with the sign of a zero dropped.
pub open spec fn opt_without_negative_zero(d: Option<Dec>) -> Option<Dec> {
    match d {
        Some(v) => Some(without_negative_zero(v)),
        None => None,
    }
}

pub open spec fn opt_reads_back(d: Option<Dec>) -> bool {
    d matches Some(v) ==> reads_back(v)
}

/// Every date and decimal text of `c` parses back to what it was written from (a negative
/// zero to zero).
pub open spec fn texts_read_back(c: TradeCandidate) -> bool {
    &&& chrono_parse_ymd(chrono_date_text(c.trade_date.days_from_ce as int)) == Ok::<
        int,
        Seq<char>,
    >(c.trade_date.days_from_ce as int)
    &&& reads_back(c.supply_score)
    &&& reads_back(c.liquidity_score)
    &&& reads_back(c.trend_score)
    &&& reads_back(c.risk_score)
    &&& reads_back(c.final_score)
    &&& reads_back(c.prev_close)
    &&& reads_back(c.prev_high)
    &&& reads_back(c.prev_low)
    &&& opt_reads_back(c.ma5)
    &&& opt_reads_back(c.ma20)
    &&& opt_reads_back(c.breakout_price)
    &&& opt_reads_back(c.pullback_price)
    &&& opt_reads_back(c.stop_loss_price)
    &&& opt_reads_back(c.target_price)
}

/// Two candidates agree in every column, but that a negative zero of `c` is a zero of `x`.
pub open spec fn same_candidate(x: TradeCandidate, c: TradeCandidate) -> bool {
    &&& x.trade_date == c.trade_date
    &&& x.stock_code@ == c.stock_code@
    &&& x.stock_name@ == c.stock_name@
    &&& x.supply_score == without_negative_zero(c.supply_score)
    &&& x.liquidity_score == without_negative_zero(c.liquidity_score)
    &&& x.trend_score == without_negative_zero(c.trend_score)
    &&& x.risk_score == without_negative_zero(c.risk_score)
    &&& x.final_score == without_negative_zero(c.final_score)
    &&& x.inst_buy_days == c.inst_buy_days
    &&& x.foreign_buy_days == c.foreign_buy_days
    &&& x.inst_net_buy_amt_5d == c.inst_net_buy_amt_5d
    &&& x.foreign_net_buy_amt_5d == c.foreign_net_buy_amt_5d
    &&& x.total_net_buy_amt_5d == c.total_net_buy_amt_5d
    &&& x.market_cap == c.market_cap
    &&& x.avg_trade_amount_20d == c.avg_trade_amount_20d
    &&& x.prev_close == without_negative_zero(c.prev_close)
    &&& x.prev_high == without_negative_zero(c.prev_high)
    &&& x.prev_low == without_negative_zero(c.prev_low)
    &&& x.ma5 == opt_without_negative_zero(c.ma5)
    &&& x.ma20 == opt_without_negative_zero(c.ma20)
    &&& x.breakout_price == opt_without_negative_zero(c.breakout_price)
    &&& x.pullback_price == opt_without_negative_zero(c.pullback_price)
    &&& x.stop_loss_price == opt_without_negative_zero(c.stop_loss_price)
    &&& x.target_price == opt_without_negative_zero(c.target_price)
    &&& x.strategy_type == c.strategy_type
    &&& x.status == c.status
}

proof fn lemma_decimal_back(d: Dec, x: Dec, text: Seq<char>)
    requires
        text == decimal_text(d),
        reads_back(d),
        rust_decimal_parse(text) == Some(x@),
    ensures
        x == without_negative_zero(d),
{
    assert(x@ == without_negative_zero(d)@);
}

proof fn lemma_opt_decimal_back(d: Option<Dec>, x: Option<Dec>, text: Option<String>)
    requires
        opt_text_is(text, d),
        opt_reads_back(d),
        opt_decimal_is(x, text),
    ensures
        x == opt_without_negative_zero(d),
{
    match d {
        Some(v) => {
            lemma_decimal_back(v, x->0, text->0@);
        },
        None => {},
    }
}

proof fn lemma_opt_readable(d: Option<Dec>, text: Option<String>)
    requires
        opt_text_is(text, d),
        opt_reads_back(d),
    ensures
        opt_decimal_error(text) is None,
{
}

/// A stored candidate is read back without error.
pub proof fn stored_candidate_is_readable(c: TradeCandidate, rec: CandidateRecord)
    requires
        stored_as(rec, c),
    ensures
        candidate_error(rec) is None,
{
    strategy_name_round_trip(c.strategy_type);
    status_name_round_trip(c.status);
    lemma_opt_readable(c.ma5, rec.ma5);
    lemma_opt_readable(c.ma20, rec.ma20);
    lemma_opt_readable(c.breakout_price, rec.breakout_price);
    lemma_opt_readable(c.pullback_price, rec.pullback_price);
    lemma_opt_readable(c.stop_loss_price, rec.stop_loss_price);
    lemma_opt_readable(c.target_price, rec.target_price);
}

/// What is read back of a stored candidate agrees with the candidate stored in every
/// column, a negative zero read back as zero.
pub proof fn stored_candidate_reads_back(c: TradeCandidate, rec: CandidateRecord, x: TradeCandidate)
    requires
        stored_as(rec, c),
        candidate_is(x, rec),
    ensures
        same_candidate(x, c),
{
    strategy_name_round_trip(c.strategy_type);
    status_name_round_trip(c.status);
    lemma_decimal_back(c.supply_score, x.supply_score, rec.supply_score@);
    lemma_decimal_back(c.liquidity_score, x.liquidity_score, rec.liquidity_score@);
    lemma_decimal_back(c.trend_score, x.trend_score, rec.trend_score@);
    lemma_decimal_back(c.risk_score, x.risk_score, rec.risk_score@);
    lemma_decimal_back(c.final_score, x.final_score, rec.final_score@);
    lemma_decimal_back(c.prev_close, x.prev_close, rec.prev_close@);
    lemma_decimal_back(c.prev_high, x.prev_high, rec.prev_high@);
    lemma_decimal_back(c.prev_low, x.prev_low, rec.prev_low@);
    lemma_opt_decimal_back(c.ma5, x.ma5, rec.ma5);
    lemma_opt_decimal_back(c.ma20, x.ma20, rec.ma20);
    lemma_opt_decimal_back(c.breakout_price, x.breakout_price, rec.breakout_price);
    lemma_opt_decimal_back(c.pullback_price, x.pullback_price, rec.pullback_price);
    lemma_opt_decimal_back(c.stop_loss_price, x.stop_loss_price, rec.stop_loss_price);
    lemma_opt_decimal_back(c.target_price, x.target_price, rec.target_price);
    assert(x.trade_date.days_from_ce == c.trade_date.days_from_ce);
}

} // verus!
