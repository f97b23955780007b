//! Retrieval of historical market data from an exchange's public REST API:
//! request building, response classification and response parsing.
//!
//! A retrieval has two verified halves around the one network call, which
//! the caller makes: [`dispatch::candles_call`] gives the URL to get, and
//! [`dispatch::candles_reply`] reads what the call came to; likewise for
//! trades.

pub mod binance;
pub mod dispatch;
pub mod error;
pub mod json;
pub mod number;
pub mod query;
pub mod text;
pub mod transport;
pub mod types;

pub use types::Candle;
pub use types::Interval;
