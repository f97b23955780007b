//! The bindings of the Binance spot market.

pub mod config;
pub mod spot;
