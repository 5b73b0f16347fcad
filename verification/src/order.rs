//! Order execution. Only dry runs exist: a buy is recorded and reported, never sent to
//! the broker; real order management is switched off.
use vstd::prelude::*;
use crate::decimal::decimal_text;
use crate::domain::{BuyOrderRequest, OrderExecutionResult, OrderStatus, SellOrderRequest};
use crate::text::{int_text, int_to_text};

verus! {

/// The message a recorded dry-run buy sends.
pub open spec fn dry_run_buy_text(request: BuyOrderRequest) -> Seq<char> {
    "[DRY_RUN 주문 기록]\n종목: "@ + request.stock_code@ + " "@ + request.stock_name@
        + "\n가격: "@ + decimal_text(request.price) + "\n수량: "@ + int_text(request.qty as int)
        + "\n상태: 실제 주문 없음"@
}

/// Records buys without sending them; the records and messages themselves are kept by the
/// caller.
#[derive(Clone, Copy, Debug)]
pub struct DryRunOrderExecutor;

impl DryRunOrderExecutor {
    pub fn new() -> (r: DryRunOrderExecutor) {
        DryRunOrderExecutor
    }

    /// The message sent once a dry-run buy is recorded.
    pub fn buy_message(&self, request: &BuyOrderRequest) -> (r: String)
        requires
            request.price.wf(),
        ensures
            r@ == dry_run_buy_text(*request),
    {
        let mut text = String::from_str("[DRY_RUN 주문 기록]\n종목: ");
        text.append(request.stock_code.as_str());
        text.append(" ");
        text.append(request.stock_name.as_str());
        text.append("\n가격: ");
        text.append(request.price.to_text().as_str());
        text.append("\n수량: ");
        text.append(int_to_text(request.qty).as_str());
        text.append("\n상태: 실제 주문 없음");
        text
    }

    /// What a recorded dry-run buy reports: the stored order's id and no broker order.
    pub fn buy_result(&self, order_id: i64) -> (r: OrderExecutionResult)
        ensures
            r.order_id == Some(order_id),
            r.kis_order_no is None,
            r.status == OrderStatus::DryRun,
            r.message@ == "DRY_RUN buy order recorded"@,
    {
        OrderExecutionResult {
            order_id: Some(order_id),
            kis_order_no: None,
            status: OrderStatus::DryRun,
            message: String::from_str("DRY_RUN buy order recorded"),
        }
    }

    /// A sell is neither recorded nor sent: position management is not in place yet.
    pub fn submit_sell_order(&self, request: SellOrderRequest) -> (r: OrderExecutionResult)
        ensures
            r.order_id is None,
            r.kis_order_no is None,
            r.status == OrderStatus::DryRun,
            r.message@ == "DRY_RUN sell order scaffold; position management pending"@,
    {
        OrderExecutionResult {
            order_id: None,
            kis_order_no: None,
            status: OrderStatus::DryRun,
            message: String::from_str("DRY_RUN sell order scaffold; position management pending"),
        }
    }
}

/// Real orders through the broker; switched off.
#[derive(Clone, Copy, Debug)]
pub struct RealOrderExecutor;

/// Orders through the KIS API; switched off.
#[derive(Clone, Copy, Debug)]
pub struct KisOrderExecutor;

impl RealOrderExecutor {
    /// Always refused: real orders are disabled.
    pub fn cancel_order(&self) -> (r: Result<(), String>)
        ensures
            r is Err,
            r->Err_0@ == "cancel_order unavailable: real KIS order is disabled"@,
    {
        Err(String::from_str("cancel_order unavailable: real KIS order is disabled"))
    }

    /// Always refused: real orders are disabled.
    pub fn fetch_order_status(&self) -> (r: Result<(), String>)
        ensures
            r is Err,
            r->Err_0@ == "fetch_order_status unavailable: real KIS order is disabled"@,
    {
        Err(String::from_str("fetch_order_status unavailable: real KIS order is disabled"))
    }
}

} // verus!
