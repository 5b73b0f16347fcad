//! Stock master data, financial ratios, market metrics and live quotes.
use vstd::prelude::*;
use crate::clock::Date;
use crate::decimal::Dec;

verus! {

/// Master data of one listed stock with the flags that exclude it from screening.
#[derive(Clone, Debug)]
pub struct StockBasic {
    pub stock_code: String,
    pub stock_name: String,
    pub market: Option<String>,
    pub sector: Option<String>,
    pub is_preferred: bool,
    pub is_etf: bool,
    pub is_etn: bool,
    pub is_spac: bool,
    pub is_trading_halted: bool,
    pub is_administrative_issue: bool,
    pub is_warning: bool,
}

/// Balance-sheet and profit figures of one stock.
#[derive(Clone, Debug)]
pub struct FinancialRatio {
    pub stock_code: String,
    pub debt_ratio: Option<Dec>,
    pub operating_profit: Option<i64>,
    pub quarterly_operating_profit: Option<i64>,
    pub capital_impairment: Option<bool>,
}

impl FinancialRatio {
    pub open spec fn wf(self) -> bool {
        self.debt_ratio matches Some(r) ==> r.wf()
    }
}

/// Market capitalisation and credit figures of one stock on one day.
#[derive(Clone, Debug)]
pub struct MarketMetricDaily {
    pub trade_date: Date,
    pub stock_code: String,
    pub market_cap: Option<i64>,
    pub credit_balance: Option<i64>,
    pub short_selling_amount: Option<i64>,
}

/// A live quote of one stock.
#[derive(Clone, Debug)]
pub struct CurrentQuote {
    pub stock_code: String,
    pub stock_name: String,
    pub current_price: Dec,
    pub open_price: Dec,
    pub high_price: Dec,
    pub low_price: Dec,
    pub prev_close: Dec,
    pub accumulated_trade_amount: i64,
    pub expected_trade_amount_ratio: Dec,
    pub execution_strength: Dec,
    pub bid_price: Dec,
    pub ask_price: Dec,
    pub vwap: Option<Dec>,
    pub is_vi_expected: bool,
}

impl CurrentQuote {
    /// All prices and ratios are decimals.
    pub open spec fn wf(self) -> bool {
        &&& self.current_price.wf()
        &&& self.open_price.wf()
        &&& self.high_price.wf()
        &&& self.low_price.wf()
        &&& self.prev_close.wf()
        &&& self.expected_trade_amount_ratio.wf()
        &&& self.execution_strength.wf()
        &&& self.bid_price.wf()
        &&& self.ask_price.wf()
        &&& self.vwap matches Some(v) ==> v.wf()
    }
}

} // verus!
