//! Shared building blocks of a Binance API client: configurations and their builders, observers of
//! WebSocket traffic, errors with their reconnection rules, and the plain values they exchange.

pub mod config;
pub mod diagnostics;
pub mod errors;
pub mod external;
pub mod models;
pub mod observers;
pub mod text;
