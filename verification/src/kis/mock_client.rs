//! A broker client that serves fixed data, for running without credentials.
use vstd::prelude::*;
use crate::clock::{Date, MIN_DAYS_FROM_CE};
use crate::decimal::{int_dec, rust_decimal_add, rust_decimal_sub, Dec};
use crate::domain::{
    CurrentQuote, FinancialRatio, InvestorFlowDaily, OhlcvDaily, OrderRequest, OrderResponse,
    OrderStatus, StockBasic,
};
use crate::strategy::scoring::trunc_div;
use crate::text::text_equals;

verus! {

/// Serves fixed stocks, flows, candles and quotes; orders are accepted as dry runs.
#[derive(Clone, Copy, Debug)]
pub struct MockKisClient;

/// The number of stocks in the mock universe.
pub const MOCK_STOCK_COUNT: usize = 5usize;

/// Code, name, market and sector of the `i`-th mock stock.
pub open spec fn mock_stock_entry(i: int) -> (Seq<char>, Seq<char>, Seq<char>, Seq<char>) {
    if i == 0 {
        ("005930"@, "삼성전자"@, "KOSPI"@, "반도체"@)
    } else if i == 1 {
        ("000660"@, "SK하이닉스"@, "KOSPI"@, "반도체"@)
    } else if i == 2 {
        ("035420"@, "NAVER"@, "KOSPI"@, "인터넷"@)
    } else if i == 3 {
        ("035720"@, "카카오"@, "KOSPI"@, "인터넷"@)
    } else {
        ("005380"@, "현대차"@, "KOSPI"@, "자동차"@)
    }
}

/// `s` is a plain listed stock with these code, name, market and sector: no flag set.
pub open spec fn is_listed_stock(
    s: StockBasic,
    code: Seq<char>,
    name: Seq<char>,
    market: Seq<char>,
    sector: Seq<char>,
) -> bool {
    &&& s.stock_code@ == code
    &&& s.stock_name@ == name
    &&& s.market matches Some(m) && m@ == market
    &&& s.sector matches Some(x) && x@ == sector
    &&& !s.is_preferred
    &&& !s.is_etf
    &&& !s.is_etn
    &&& !s.is_spac
    &&& !s.is_trading_halted
    &&& !s.is_administrative_issue
    &&& !s.is_warning
}

/// `s` is the `i`-th mock stock.
pub open spec fn is_mock_stock(s: StockBasic, i: int) -> bool {
    let e = mock_stock_entry(i);
    is_listed_stock(s, e.0, e.1, e.2, e.3)
}

/// The position of the mock stock with this code.
pub open spec fn mock_stock_index(code: Seq<char>) -> Option<int> {
    if code == mock_stock_entry(0).0 {
        Some(0)
    } else if code == mock_stock_entry(1).0 {
        Some(1)
    } else if code == mock_stock_entry(2).0 {
        Some(2)
    } else if code == mock_stock_entry(3).0 {
        Some(3)
    } else if code == mock_stock_entry(4).0 {
        Some(4)
    } else {
        None
    }
}

/// A plain listed stock: no exclusion flag is set.
pub fn stock(code: &str, name: &str, market: &str, sector: &str) -> (r: StockBasic)
    ensures
        is_listed_stock(r, code@, name@, market@, sector@),
{
    StockBasic {
        stock_code: String::from_str(code),
        stock_name: String::from_str(name),
        market: Some(String::from_str(market)),
        sector: Some(String::from_str(sector)),
        is_preferred: false,
        is_etf: false,
        is_etn: false,
        is_spac: false,
        is_trading_halted: false,
        is_administrative_issue: false,
        is_warning: false,
    }
}

/// The five stocks of the mock universe.
pub fn mock_stocks() -> (r: Vec<StockBasic>)
    ensures
        r@.len() == MOCK_STOCK_COUNT,
        forall|i: int| 0 <= i < MOCK_STOCK_COUNT ==> is_mock_stock(#[trigger] r@[i], i),
{
    let r = vec![
        stock("005930", "삼성전자", "KOSPI", "반도체"),
        stock("000660", "SK하이닉스", "KOSPI", "반도체"),
        stock("035420", "NAVER", "KOSPI", "인터넷"),
        stock("035720", "카카오", "KOSPI", "인터넷"),
        stock("005380", "현대차", "KOSPI", "자동차"),
    ];
    assert(is_mock_stock(r@[0], 0));
    assert(is_mock_stock(r@[1], 1));
    assert(is_mock_stock(r@[2], 2));
    assert(is_mock_stock(r@[3], 3));
    assert(is_mock_stock(r@[4], 4));
    r
}

/// Institutional and foreign net buying of a mock stock `offset` days before the last day.
pub open spec fn mock_flow_amounts(code: Seq<char>, offset: int) -> (int, int) {
    if code == "005930"@ {
        (8_400_000_000, 6_200_000_000)
    } else if code == "000660"@ {
        (7_600_000_000, 2_400_000_000)
    } else if code == "035420"@ {
        (2_200_000_000, 1_400_000_000)
    } else if code == "035720"@ {
        if offset < 2 {
            (900_000_000, -300_000_000)
        } else {
            (-700_000_000, 500_000_000)
        }
    } else if code == "005380"@ {
        (1_600_000_000, 1_100_000_000)
    } else {
        (0, 0)
    }
}

/// The number of days of mock investor flows.
pub const MOCK_FLOW_DAYS: usize = 5usize;

/// Shares per 100,000 won of net buying in the mock flows.
pub const MOCK_WON_PER_SHARE: i64 = 100_000i64;

/// `row` is the mock flow of `code` on day `k` of the five days that end on `to`.
pub open spec fn is_mock_flow(row: InvestorFlowDaily, code: Seq<char>, to: Date, k: int) -> bool {
    let offset = MOCK_FLOW_DAYS - 1 - k;
    let (inst, foreign) = mock_flow_amounts(code, offset);
    &&& row.trade_date.days_from_ce == to.days_from_ce - offset
    &&& row.trade_date.wf()
    &&& row.stock_code@ == code
    &&& row.institution_net_buy_amt == inst
    &&& row.foreign_net_buy_amt == foreign
    &&& row.individual_net_buy_amt == -(inst + foreign)
    &&& row.institution_net_buy_qty == Some(trunc_div(inst, MOCK_WON_PER_SHARE as int) as i64)
    &&& row.foreign_net_buy_qty == Some(trunc_div(foreign, MOCK_WON_PER_SHARE as int) as i64)
    &&& row.individual_net_buy_qty == Some(
        trunc_div(-(inst + foreign), MOCK_WON_PER_SHARE as int) as i64,
    )
}

/// The closing price mock candles of `code` start from.
pub open spec fn mock_base_price(code: Seq<char>) -> int {
    if code == "005930"@ {
        78_000
    } else if code == "000660"@ {
        176_000
    } else if code == "035420"@ {
        192_000
    } else if code == "035720"@ {
        52_000
    } else if code == "005380"@ {
        241_000
    } else {
        10_000
    }
}

/// The traded amount mock candles of `code` start from.
pub open spec fn mock_base_amount(code: Seq<char>) -> int {
    if code == "035720"@ {
        2_000_000_000
    } else if code == "035420"@ {
        8_000_000_000
    } else {
        20_000_000_000
    }
}

/// The number of days of mock candles.
pub const MOCK_CANDLE_DAYS: usize = 20usize;

/// `d` is `a + b` (or `a - b` when `minus`) of two integers, as `rust_decimal` gives it.
pub open spec fn is_int_sum(d: Dec, a: int, b: int, minus: bool) -> bool {
    &&& d@ == (if minus {
        rust_decimal_sub(int_dec(a)@, int_dec(b)@)
    } else {
        rust_decimal_add(int_dec(a)@, int_dec(b)@)
    })
    &&& d.wf()
    &&& d.scale == 0
    &&& d.m() == (if minus {
        a - b
    } else {
        a + b
    })
}

/// `row` is the mock candle of `code` on day `k` of the twenty days that end on `to`: the
/// close climbs by 180 a day, the open is 250 below it, the high 700 above and the low 900
/// below.
pub open spec fn is_mock_candle(row: OhlcvDaily, code: Seq<char>, to: Date, k: int) -> bool {
    let close = mock_base_price(code) + k * 180;
    &&& row.trade_date.days_from_ce == to.days_from_ce - (MOCK_CANDLE_DAYS - 1 - k)
    &&& row.trade_date.wf()
    &&& row.stock_code@ == code
    &&& row.close_price == int_dec(close)
    &&& is_int_sum(row.open_price, close, 250, true)
    &&& is_int_sum(row.high_price, close, 700, false)
    &&& is_int_sum(row.low_price, close, 900, true)
    &&& row.volume == 1_000_000 + k * 20_000
    &&& row.trade_amount == mock_base_amount(code) + k * 120_000_000
    &&& row.wf()
}

/// Name, previous close, current price, execution strength, expected amount ratio and VWAP
/// of the mock quote of `code`.
pub open spec fn mock_quote_entry(code: Seq<char>) -> (Seq<char>, int, int, int, int, int) {
    if code == "005930"@ {
        ("삼성전자"@, 81_200, 82_250, 124, 160, 81_900)
    } else if code == "000660"@ {
        ("SK하이닉스"@, 179_400, 178_900, 106, 90, 178_500)
    } else if code == "035420"@ {
        ("NAVER"@, 195_000, 194_700, 101, 80, 194_400)
    } else if code == "005380"@ {
        ("현대차"@, 244_000, 245_500, 112, 120, 245_200)
    } else {
        ("UNKNOWN"@, 10_000, 10_000, 80, 50, 10_000)
    }
}

/// `q` is the mock quote of `code`: it opened at the previous close, its high is 300 above
/// the current price and its low 900 below, bid and ask 40 below and above.
pub open spec fn is_mock_quote(q: CurrentQuote, code: Seq<char>) -> bool {
    let (name, prev_close, current, strength, ratio, vwap) = mock_quote_entry(code);
    &&& q.stock_code@ == code
    &&& q.stock_name@ == name
    &&& q.current_price == int_dec(current)
    &&& q.open_price == int_dec(prev_close)
    &&& q.high_price == int_dec(current + 300)
    &&& q.low_price == int_dec(current - 900)
    &&& q.prev_close == int_dec(prev_close)
    &&& q.accumulated_trade_amount == 30_000_000_000
    &&& q.expected_trade_amount_ratio == int_dec(ratio)
    &&& q.execution_strength == int_dec(strength)
    &&& q.bid_price == int_dec(current - 40)
    &&& q.ask_price == int_dec(current + 40)
    &&& q.vwap == Some(int_dec(vwap))
    &&& !q.is_vi_expected
    &&& q.wf()
}

/// The mock market capitalisation of `code`.
pub open spec fn mock_market_cap(code: Seq<char>) -> int {
    if code == "005930"@ {
        470_000_000_000_000
    } else if code == "000660"@ {
        120_000_000_000_000
    } else if code == "035420"@ {
        31_000_000_000_000
    } else if code == "035720"@ {
        21_000_000_000_000
    } else if code == "005380"@ {
        49_000_000_000_000
    } else {
        50_000_000_000
    }
}

/// `f` is the mock financial ratio of `code`: 035720 is indebted and loss-making, every
/// other stock healthy.
pub open spec fn is_mock_financial(f: FinancialRatio, code: Seq<char>) -> bool {
    let weak = code == "035720"@;
    &&& f.stock_code@ == code
    &&& f.debt_ratio == Some(int_dec(if weak { 320 } else { 80 }))
    &&& f.operating_profit == Some((if weak { -100_000_000_000 } else { 1_000_000_000_000 }) as i64)
    &&& f.quarterly_operating_profit == Some(
        (if weak { -10_000_000_000 } else { 100_000_000_000 }) as i64,
    )
    &&& f.capital_impairment == Some(false)
    &&& f.wf()
}

fn code_is(code: &str, target: &str) -> (r: bool)
    ensures
        r == (code@ == target@),
{
    text_equals(code, target)
}

fn int_sum(a: i64, b: i64, minus: bool) -> (r: Dec)
    requires
        -1_000_000_000 <= a <= 1_000_000_000,
        -1_000_000_000 <= b <= 1_000_000_000,
    ensures
        is_int_sum(r, a as int, b as int, minus),
{
    let x = Dec::from_int(a);
    let y = Dec::from_int(b);
    if minus {
        x.sub(&y)
    } else {
        x.add(&y)
    }
}

impl MockKisClient {
    pub fn new() -> (r: MockKisClient) {
        MockKisClient
    }

    pub fn issue_access_token(&self) -> (r: String)
        ensures
            r@ == "mock-token"@,
    {
        String::from_str("mock-token")
    }

    /// The five mock stocks.
    pub fn fetch_stock_universe(&self) -> (r: Vec<StockBasic>)
        ensures
            r@.len() == MOCK_STOCK_COUNT,
            forall|i: int| 0 <= i < MOCK_STOCK_COUNT ==> is_mock_stock(#[trigger] r@[i], i),
    {
        mock_stocks()
    }

    /// Five days of flows ending on `to`, oldest first.
    pub fn fetch_investor_flow_daily(&self, stock_code: &str, from: Date, to: Date) -> (r: Vec<
        InvestorFlowDaily,
    >)
        requires
            to.wf(),
            to.days_from_ce - (MOCK_FLOW_DAYS - 1) >= MIN_DAYS_FROM_CE,
        ensures
            r@.len() == MOCK_FLOW_DAYS,
            forall|k: int| 0 <= k < MOCK_FLOW_DAYS ==> is_mock_flow(#[trigger] r@[k], stock_code@, to, k),
    {
        let mut rows: Vec<InvestorFlowDaily> = Vec::new();
        let mut k: usize = 0;
        while k < MOCK_FLOW_DAYS
            invariant
                k <= MOCK_FLOW_DAYS,
                rows@.len() == k,
                to.wf(),
                to.days_from_ce - (MOCK_FLOW_DAYS - 1) >= MIN_DAYS_FROM_CE,
                forall|j: int| 0 <= j < k ==> is_mock_flow(#[trigger] rows@[j], stock_code@, to, j),
            decreases MOCK_FLOW_DAYS - k,
        {
            let offset: usize = MOCK_FLOW_DAYS - 1 - k;
            let trade_date = to.minus_days(offset as i64);
            let (inst, foreign): (i64, i64) = if code_is(stock_code, "005930") {
                (8_400_000_000, 6_200_000_000)
            } else if code_is(stock_code, "000660") {
                (7_600_000_000, 2_400_000_000)
            } else if code_is(stock_code, "035420") {
                (2_200_000_000, 1_400_000_000)
            } else if code_is(stock_code, "035720") {
                if offset < 2 {
                    (900_000_000, -300_000_000)
                } else {
                    (-700_000_000, 500_000_000)
                }
            } else if code_is(stock_code, "005380") {
                (1_600_000_000, 1_100_000_000)
            } else {
                (0, 0)
            };
            assert((inst as int, foreign as int) == mock_flow_amounts(stock_code@, offset as int));
            let row = InvestorFlowDaily {
                trade_date,
                stock_code: String::from_str(stock_code),
                institution_net_buy_amt: inst,
                foreign_net_buy_amt: foreign,
                individual_net_buy_amt: -(inst + foreign),
                institution_net_buy_qty: Some(inst / MOCK_WON_PER_SHARE),
                foreign_net_buy_qty: Some(foreign / MOCK_WON_PER_SHARE),
                individual_net_buy_qty: Some(-(inst + foreign) / MOCK_WON_PER_SHARE),
            };
            rows.push(row);
            k = k + 1;
        }
        rows
    }

    /// Twenty days of candles ending on `to`, oldest first.
    pub fn fetch_ohlcv_daily(&self, stock_code: &str, from: Date, to: Date) -> (r: Vec<OhlcvDaily>)
        requires
            to.wf(),
            to.days_from_ce - (MOCK_CANDLE_DAYS - 1) >= MIN_DAYS_FROM_CE,
        ensures
            r@.len() == MOCK_CANDLE_DAYS,
            forall|k: int|
                0 <= k < MOCK_CANDLE_DAYS ==> is_mock_candle(#[trigger] r@[k], stock_code@, to, k),
    {
        let base: i64 = if code_is(stock_code, "005930") {
            78_000
        } else if code_is(stock_code, "000660") {
            176_000
        } else if code_is(stock_code, "035420") {
            192_000
        } else if code_is(stock_code, "035720") {
            52_000
        } else if code_is(stock_code, "005380") {
            241_000
        } else {
            10_000
        };
        let trade_amount: i64 = if code_is(stock_code, "035720") {
            2_000_000_000
        } else if code_is(stock_code, "035420") {
            8_000_000_000
        } else {
            20_000_000_000
        };
        assert(base == mock_base_price(stock_code@));
        assert(trade_amount == mock_base_amount(stock_code@));
        let mut rows: Vec<OhlcvDaily> = Vec::new();
        let mut k: usize = 0;
        while k < MOCK_CANDLE_DAYS
            invariant
                k <= MOCK_CANDLE_DAYS,
                rows@.len() == k,
                to.wf(),
                to.days_from_ce - (MOCK_CANDLE_DAYS - 1) >= MIN_DAYS_FROM_CE,
                base == mock_base_price(stock_code@),
                trade_amount == mock_base_amount(stock_code@),
                forall|j: int|
                    0 <= j < k ==> is_mock_candle(#[trigger] rows@[j], stock_code@, to, j),
            decreases MOCK_CANDLE_DAYS - k,
        {
            let idx = k as i64;
            let offset: usize = MOCK_CANDLE_DAYS - 1 - k;
            let close_value = base + idx * 180;
            let row = OhlcvDaily {
                trade_date: to.minus_days(offset as i64),
                stock_code: String::from_str(stock_code),
                open_price: int_sum(close_value, 250, true),
                high_price: int_sum(close_value, 700, false),
                low_price: int_sum(close_value, 900, true),
                close_price: Dec::from_int(close_value),
                volume: 1_000_000 + idx * 20_000,
                trade_amount: trade_amount + idx * 120_000_000,
            };
            rows.push(row);
            k = k + 1;
        }
        rows
    }

    /// The mock stock with this code, or an error naming the code.
    pub fn fetch_stock_basic(&self, stock_code: &str) -> (r: Result<StockBasic, String>)
        ensures
            r is Ok <==> mock_stock_index(stock_code@) is Some,
            r matches Ok(s) ==> is_mock_stock(s, mock_stock_index(stock_code@)->0),
            r matches Err(e) ==> e@ == "mock stock not found: "@ + stock_code@,
    {
        let mut stocks = mock_stocks();
        let mut i: usize = 0;
        while i < MOCK_STOCK_COUNT
            invariant
                i <= MOCK_STOCK_COUNT,
                stocks@.len() == MOCK_STOCK_COUNT,
                forall|j: int| 0 <= j < MOCK_STOCK_COUNT ==> is_mock_stock(#[trigger] stocks@[j], j),
                forall|j: int| 0 <= j < i ==> mock_stock_entry(j).0 != stock_code@,
            decreases MOCK_STOCK_COUNT - i,
        {
            if text_equals(stocks[i].stock_code.as_str(), stock_code) {
                assert(is_mock_stock(stocks@[i as int], i as int));
                assert(mock_stock_index(stock_code@) == Some(i as int));
                return Ok(stocks.remove(i));
            }
            assert(is_mock_stock(stocks@[i as int], i as int));
            i = i + 1;
        }
        let mut e = String::from_str("mock stock not found: ");
        e.append(stock_code);
        Err(e)
    }

    /// A healthy balance sheet for every stock but 035720.
    pub fn fetch_financial_ratio(&self, stock_code: &str) -> (r: Option<FinancialRatio>)
        ensures
            r matches Some(f) && is_mock_financial(f, stock_code@),
    {
        let weak = code_is(stock_code, "035720");
        Some(FinancialRatio {
            stock_code: String::from_str(stock_code),
            debt_ratio: Some(Dec::from_int(if weak { 320 } else { 80 })),
            operating_profit: Some(if weak { -100_000_000_000 } else { 1_000_000_000_000 }),
            quarterly_operating_profit: Some(if weak { -10_000_000_000 } else { 100_000_000_000 }),
            capital_impairment: Some(false),
        })
    }

    /// The mock market capitalisation, whatever the date.
    pub fn fetch_market_cap(&self, stock_code: &str, date: Date) -> (r: Option<i64>)
        ensures
            r == Some(mock_market_cap(stock_code@) as i64),
    {
        Some(
            if code_is(stock_code, "005930") {
                470_000_000_000_000
            } else if code_is(stock_code, "000660") {
                120_000_000_000_000
            } else if code_is(stock_code, "035420") {
                31_000_000_000_000
            } else if code_is(stock_code, "035720") {
                21_000_000_000_000
            } else if code_is(stock_code, "005380") {
                49_000_000_000_000
            } else {
                50_000_000_000
            },
        )
    }

    /// The mock quote of `stock_code`.
    pub fn fetch_current_quote(&self, stock_code: &str) -> (r: CurrentQuote)
        ensures
            is_mock_quote(r, stock_code@),
    {
        let (name, prev_close, current, strength, ratio, vwap): (&str, i64, i64, i64, i64, i64) =
            if code_is(stock_code, "005930") {
            ("삼성전자", 81_200, 82_250, 124, 160, 81_900)
        } else if code_is(stock_code, "000660") {
            ("SK하이닉스", 179_400, 178_900, 106, 90, 178_500)
        } else if code_is(stock_code, "035420") {
            ("NAVER", 195_000, 194_700, 101, 80, 194_400)
        } else if code_is(stock_code, "005380") {
            ("현대차", 244_000, 245_500, 112, 120, 245_200)
        } else {
            ("UNKNOWN", 10_000, 10_000, 80, 50, 10_000)
        };
        assert((name@, prev_close as int, current as int, strength as int, ratio as int, vwap as int)
            == mock_quote_entry(stock_code@));
        CurrentQuote {
            stock_code: String::from_str(stock_code),
            stock_name: String::from_str(name),
            current_price: Dec::from_int(current),
            open_price: Dec::from_int(prev_close),
            high_price: Dec::from_int(current + 300),
            low_price: Dec::from_int(current - 900),
            prev_close: Dec::from_int(prev_close),
            accumulated_trade_amount: 30_000_000_000,
            expected_trade_amount_ratio: Dec::from_int(ratio),
            execution_strength: Dec::from_int(strength),
            bid_price: Dec::from_int(current - 40),
            ask_price: Dec::from_int(current + 40),
            vwap: Some(Dec::from_int(vwap)),
            is_vi_expected: false,
        }
    }

    /// Every order is accepted as a dry run.
    pub fn submit_order(&self, request: OrderRequest) -> (r: OrderResponse)
        ensures
            r.kis_order_no is None,
            r.status == OrderStatus::DryRun,
            r.message@ == "mock order accepted as dry-run"@,
    {
        OrderResponse {
            kis_order_no: None,
            status: OrderStatus::DryRun,
            message: String::from_str("mock order accepted as dry-run"),
        }
    }
}

} // verus!
