//! Daily net buying by investor group.
use vstd::prelude::*;
use crate::clock::Date;

verus! {

/// Net buying of one stock on one day, by institutions, foreigners and individuals.
#[derive(Clone, Debug)]
pub struct InvestorFlowDaily {
    pub trade_date: Date,
    pub stock_code: String,
    pub institution_net_buy_amt: i64,
    pub foreign_net_buy_amt: i64,
    pub individual_net_buy_amt: i64,
    pub institution_net_buy_qty: Option<i64>,
    pub foreign_net_buy_qty: Option<i64>,
    pub individual_net_buy_qty: Option<i64>,
}

} // verus!
