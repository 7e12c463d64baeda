//! Contract transaction pipeline for an Ethereum JSON-RPC client: fixed-point
//! amounts, call payloads, request building, and locally signed raw
//! transactions.

pub mod amount;
pub mod builder;
pub mod contract;
pub mod encoding;
pub mod error;
pub mod gui;
pub mod numeric;
pub mod raw;
pub mod schema;
pub mod signing;
pub mod types;
pub mod wallet;
