//! construction, provider resolution and decoding of JSON answers into typed
//! records.
pub mod error;
pub mod ethereum;
pub mod exchange;
pub mod json;
pub mod models;
pub mod query;
pub mod web3;
