//! Daily candles.
use vstd::prelude::*;
use crate::clock::Date;
use crate::decimal::Dec;

verus! {

/// Open, high, low and close prices, volume and traded amount of one stock on one day.
#[derive(Clone, Debug)]
pub struct OhlcvDaily {
    pub trade_date: Date,
    pub stock_code: String,
    pub open_price: Dec,
    pub high_price: Dec,
    pub low_price: Dec,
    pub close_price: Dec,
    pub volume: i64,
    pub trade_amount: i64,
}

impl OhlcvDaily {
    /// All four prices are decimals.
    pub open spec fn wf(self) -> bool {
        &&& self.open_price.wf()
        &&& self.high_price.wf()
        &&& self.low_price.wf()
        &&& self.close_price.wf()
    }
}

} // verus!
