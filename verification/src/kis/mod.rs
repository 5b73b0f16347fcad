//! The broker API: the choice of client, the HTTP client's request texts and a mock
//! client that serves fixed data.
pub mod client;
pub mod mock_client;
pub mod models;

pub use client::{client_from_config, HttpKisClient, KisClientChoice};
pub use mock_client::MockKisClient;
