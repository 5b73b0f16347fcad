//! Buy signals raised while the market is open.
use vstd::prelude::*;
use crate::clock::{Date, TimeOfDay};
use crate::decimal::Dec;
use super::candidate::StrategyType;

verus! {

/// A dry-run buy signal for one candidate.
#[derive(Clone, Debug)]
pub struct TradeSignal {
    pub signal_date: Date,
    pub signal_time: TimeOfDay,
    pub stock_code: String,
    pub stock_name: String,
    pub strategy_type: StrategyType,
    pub signal_price: Dec,
    pub final_score: Dec,
    pub reason: String,
}

} // verus!
