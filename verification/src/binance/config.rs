//! Host and limits of the Binance spot API, and the requests it serves.

use crate::error::{FeedError, RequestFault};
use crate::types::Interval;
use vstd::prelude::*;

verus! {

/// The base host of the spot API.
pub const SPOT_HOST: &'static str = "https://api.binance.com";

/// The most records that one call returns.
pub const MAX_LIMIT: u64 = 1000;

/// A request for the candles of one symbol.
#[derive(Debug, PartialEq)]
pub struct CandleRequest {
    /// The trading pair, as the exchange names it.
    pub symbol: String,
    pub interval: Interval,
    /// Milliseconds since the epoch; the bound is inclusive.
    pub start_time: Option<i64>,
    /// Milliseconds since the epoch; the bound is inclusive.
    pub end_time: Option<i64>,
    pub timezone: Option<String>,
    pub limit: Option<u64>,
}

/// A request for the trades of one symbol.
#[derive(Debug, PartialEq)]
pub struct TradeRequest {
    /// The trading pair, as the exchange names it.
    pub symbol: String,
    /// Milliseconds since the epoch; the bound is inclusive.
    pub start_time: Option<i64>,
    /// Milliseconds since the epoch; the bound is inclusive.
    pub end_time: Option<i64>,
    pub limit: Option<u64>,
}

/// What is wrong with the common part of a request, if anything: an empty
/// symbol, a start after the end, or a limit outside `1..=MAX_LIMIT`, looked
/// for in this order.
pub open spec fn request_fault(
    symbol: Seq<char>,
    start_time: Option<i64>,
    end_time: Option<i64>,
    limit: Option<u64>,
) -> Option<RequestFault> {
    if symbol.len() == 0 {
        Some(RequestFault::EmptySymbol)
    } else if start_time is Some && end_time is Some && start_time->0 > end_time->0 {
        Some(RequestFault::ReversedRange)
    } else if limit is Some && (limit->0 == 0 || limit->0 > MAX_LIMIT) {
        Some(RequestFault::LimitOutOfRange)
    } else {
        None
    }
}

/// Accepts or refuses the common part of a request.
pub fn check_request(
    symbol: &str,
    start_time: Option<i64>,
    end_time: Option<i64>,
    limit: Option<u64>,
) -> (r: Result<(), FeedError>)
    ensures
        r == match request_fault(symbol@, start_time, end_time, limit) {
            Some(fault) => Err::<(), FeedError>(FeedError::InvalidRequestError { fault }),
            None => Ok(()),
        },
{
    if symbol.is_empty() {
        return Err(FeedError::InvalidRequestError { fault: RequestFault::EmptySymbol });
    }
    if let Some(start) = start_time {
        if let Some(end) = end_time {
            if start > end {
                return Err(FeedError::InvalidRequestError { fault: RequestFault::ReversedRange });
            }
        }
    }
    if let Some(n) = limit {
        if n == 0 || n > MAX_LIMIT {
            return Err(
                FeedError::InvalidRequestError { fault: RequestFault::LimitOutOfRange },
            );
        }
    }
    Ok(())
}

impl CandleRequest {
    /// What is wrong with this request, if anything.
    pub open spec fn fault(self) -> Option<RequestFault> {
        request_fault(self.symbol@, self.start_time, self.end_time, self.limit)
    }

    /// Accepts or refuses this request, before anything is sent.
    pub fn validate(&self) -> (r: Result<(), FeedError>)
        ensures
            r == match self.fault() {
                Some(fault) => Err::<(), FeedError>(FeedError::InvalidRequestError { fault }),
                None => Ok(()),
            },
    {
        check_request(self.symbol.as_str(), self.start_time, self.end_time, self.limit)
    }
}

impl TradeRequest {
    /// What is wrong with this request, if anything.
    pub open spec fn fault(self) -> Option<RequestFault> {
        request_fault(self.symbol@, self.start_time, self.end_time, self.limit)
    }

    /// Accepts or refuses this request, before anything is sent.
    pub fn validate(&self) -> (r: Result<(), FeedError>)
        ensures
            r == match self.fault() {
                Some(fault) => Err::<(), FeedError>(FeedError::InvalidRequestError { fault }),
                None => Ok(()),
            },
    {
        check_request(self.symbol.as_str(), self.start_time, self.end_time, self.limit)
    }
}

/// A request whose start lies after its end is refused, whatever else it
/// holds.
pub proof fn lemma_reversed_range_is_refused(
    symbol: Seq<char>,
    start_time: i64,
    end_time: i64,
    limit: Option<u64>,
)
    requires
        start_time > end_time,
    ensures
        request_fault(symbol, Some(start_time), Some(end_time), limit) is Some,
{
}

} // verus!
