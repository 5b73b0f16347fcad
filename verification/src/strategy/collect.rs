//! The daily collection: what is asked for and what is stored besides the fetched rows.
use vstd::prelude::*;
use crate::clock::{Date, MIN_DAYS_FROM_CE};
use crate::domain::MarketMetricDaily;

verus! {

/// How many days of history a collection asks for.
pub const COLLECT_WINDOW_DAYS: i64 = 30i64;

/// The first day a collection for `date` asks for.
pub fn collect_window_start(date: Date) -> (r: Date)
    requires
        date.wf(),
        date.days_from_ce - COLLECT_WINDOW_DAYS >= MIN_DAYS_FROM_CE,
    ensures
        r.days_from_ce == date.days_from_ce - COLLECT_WINDOW_DAYS,
        r.wf(),
{
    date.minus_days(COLLECT_WINDOW_DAYS)
}

/// The market metric stored for a stock on `date`: its market capitalisation, no credit
/// or short-selling figures.
pub fn market_metric_for(date: Date, stock_code: &str, market_cap: Option<i64>) -> (r:
    MarketMetricDaily)
    ensures
        r.trade_date == date,
        r.stock_code@ == stock_code@,
        r.market_cap == market_cap,
        r.credit_balance is None,
        r.short_selling_amount is None,
{
    MarketMetricDaily {
        trade_date: date,
        stock_code: String::from_str(stock_code),
        market_cap,
        credit_balance: None,
        short_selling_amount: None,
    }
}

/// How many stocks were collected and how many failed and were skipped.
#[derive(Clone, Copy, Debug)]
pub struct CollectTally {
    pub success: u64,
    pub failed: u64,
}

impl CollectTally {
    pub fn new() -> (r: CollectTally)
        ensures
            r.success == 0,
            r.failed == 0,
    {
        CollectTally { success: 0, failed: 0 }
    }

    /// Counts one stock, as collected or as failed.
    pub fn record(&mut self, collected: bool)
        requires
            old(self).success + old(self).failed < u64::MAX,
        ensures
            final(self).success == old(self).success + (if collected { 1int } else { 0 }),
            final(self).failed == old(self).failed + (if collected { 0int } else { 1 }),
    {
        if collected {
            self.success = self.success + 1;
        } else {
            self.failed = self.failed + 1;
        }
    }
}

} // verus!
