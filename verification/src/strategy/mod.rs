//! The screening and signal rules.
pub mod bounds;
pub mod candidate_builder;
pub mod collect;
pub mod filters;
pub mod monitor;
pub mod risk;
pub mod scoring;
