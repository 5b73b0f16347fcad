//! The records the strategy works on.
pub mod candidate;
pub mod investor_flow;
pub mod ohlcv;
pub mod order;
pub mod position;
pub mod signal;
pub mod stock;

pub use candidate::{CandidateStatus, StrategyType, TradeCandidate};
pub use investor_flow::InvestorFlowDaily;
pub use ohlcv::OhlcvDaily;
pub use order::{
    BuyOrderRequest, OrderExecutionResult, OrderRequest, OrderResponse, OrderSide, OrderStatus,
    OrderType, SellOrderRequest,
};
pub use position::{build_sell_plan, Position, SellPlan};
pub use signal::TradeSignal;
pub use stock::{CurrentQuote, FinancialRatio, MarketMetricDaily, StockBasic};
