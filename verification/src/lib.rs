//! Supply-driven candidate screening and dry-run signal logic for a KIS trading bot.
//!
//! The library holds the strategy rules (scoring, filters, risk gates and intraday
//! signals), the domain model, the configuration rules and the text of the reports.
//! Network, database and scheduling live in the application around it.
pub mod decimal;
pub mod clock;
pub mod text;
pub mod domain;
pub mod config;
pub mod strategy;
pub mod discord;
pub mod order;
pub mod kis;
pub mod error;
pub mod commands;
pub mod storage;
