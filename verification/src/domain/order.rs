//! Order requests and their outcomes.
use vstd::prelude::*;
use crate::clock::Date;
use crate::decimal::Dec;

verus! {

/// An order as the broker API takes it.
#[derive(Clone, Debug)]
pub struct OrderRequest {
    pub stock_code: String,
    pub side: OrderSide,
    pub order_type: OrderType,
    pub price: Option<Dec>,
    pub qty: i64,
}

/// The broker's answer to an order.
#[derive(Clone, Debug)]
pub struct OrderResponse {
    pub kis_order_no: Option<String>,
    pub status: OrderStatus,
    pub message: String,
}

/// A buy order raised by a signal.
#[derive(Clone, Debug)]
pub struct BuyOrderRequest {
    pub trade_date: Date,
    pub stock_code: String,
    pub stock_name: String,
    pub price: Dec,
    pub qty: i64,
    pub reason: String,
}

/// A sell order of a held position.
#[derive(Clone, Debug)]
pub struct SellOrderRequest {
    pub trade_date: Date,
    pub stock_code: String,
    pub stock_name: String,
    pub price: Dec,
    pub qty: i64,
    pub reason: String,
}

/// What an order executor reports back.
#[derive(Clone, Debug)]
pub struct OrderExecutionResult {
    pub order_id: Option<i64>,
    pub kis_order_no: Option<String>,
    pub status: OrderStatus,
    pub message: String,
}

#[derive(Clone, Copy, Debug, PartialEq, Eq, Structural)]
pub enum OrderSide {
    Buy,
    Sell,
}

impl OrderSide {
    /// The stored name, as its `Display` writes it.
    pub fn as_str(&self) -> (r: &'static str)
        ensures
            r@ == (match self {
                OrderSide::Buy => "BUY"@,
                OrderSide::Sell => "SELL"@,
            }),
    {
        match self {
            OrderSide::Buy => "BUY",
            OrderSide::Sell => "SELL",
        }
    }
}

#[derive(Clone, Copy, Debug, PartialEq, Eq, Structural)]
pub enum OrderType {
    Market,
    Limit,
}

impl OrderType {
    /// The stored name, as its `Display` writes it.
    pub fn as_str(&self) -> (r: &'static str)
        ensures
            r@ == (match self {
                OrderType::Market => "MARKET"@,
                OrderType::Limit => "LIMIT"@,
            }),
    {
        match self {
            OrderType::Market => "MARKET",
            OrderType::Limit => "LIMIT",
        }
    }
}

#[derive(Clone, Copy, Debug, PartialEq, Eq, Structural)]
pub enum OrderStatus {
    Requested,
    DryRun,
    Submitted,
    Filled,
    Rejected,
    Cancelled,
}

impl OrderStatus {
    /// The stored name, as its `Display` writes it.
    pub fn as_str(&self) -> (r: &'static str)
        ensures
            r@ == (match self {
                OrderStatus::Requested => "REQUESTED"@,
                OrderStatus::DryRun => "DRY_RUN"@,
                OrderStatus::Submitted => "SUBMITTED"@,
                OrderStatus::Filled => "FILLED"@,
                OrderStatus::Rejected => "REJECTED"@,
                OrderStatus::Cancelled => "CANCELLED"@,
            }),
    {
        match self {
            OrderStatus::Requested => "REQUESTED",
            OrderStatus::DryRun => "DRY_RUN",
            OrderStatus::Submitted => "SUBMITTED",
            OrderStatus::Filled => "FILLED",
            OrderStatus::Rejected => "REJECTED",
            OrderStatus::Cancelled => "CANCELLED",
        }
    }
}

} // verus!
