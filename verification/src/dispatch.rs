//! Routing: which bindings serve an exchange, and the two halves of a
//! retrieval around the one network call that the caller makes.

use crate::binance::config::{CandleRequest, TradeRequest};
use crate::binance::spot::{
    candle_fields, candles_outcome, candles_result, candles_url, parse_candles, parse_trades,
    trade_fields, trades_outcome, trades_result, trades_url, url_text, Endpoint,
};
use crate::error::{DecodeFault, FeedError, FeedErrorView};
use crate::json::json_document;
use crate::transport::{classified, classify, Reply};
use crate::types::{Candle, CandleView, Exchange, Trade, TradeView};
use vstd::prelude::*;

verus! {

/// A set of bindings: request builder, host and endpoints, response parser.
#[derive(Debug, Clone, Copy, PartialEq, Eq, Structural)]
pub enum Binding {
    BinanceSpot,
}

/// The routing table. An exchange without an entry has no bindings; none
/// stands in for it.
pub open spec fn binding_of(exchange: Exchange) -> Option<Binding> {
    match exchange {
        Exchange::Binance => Some(Binding::BinanceSpot),
        _ => None,
    }
}

/// Selects the bindings of an exchange.
pub fn select(exchange: Exchange) -> (r: Result<Binding, FeedError>)
    ensures
        r == match binding_of(exchange) {
            Some(binding) => Ok::<Binding, FeedError>(binding),
            None => Err(FeedError::UnsupportedExchangeError { exchange }),
        },
{
    match exchange {
        Exchange::Binance => Ok(Binding::BinanceSpot),
        _ => Err(FeedError::UnsupportedExchangeError { exchange }),
    }
}

/// The URL to get for the candles of a request.
///
/// Fails with `UnsupportedExchangeError` where the exchange has no bindings,
/// else with `InvalidRequestError` where the request is refused; in both
/// cases there is nothing to send.
pub fn candles_call(exchange: Exchange, request: &CandleRequest) -> (r: Result<String, FeedError>)
    ensures
        match r {
            Ok(url) => {
                &&& binding_of(exchange) == Some(Binding::BinanceSpot)
                &&& request.fault().is_none()
                &&& url@ == url_text(Endpoint::Klines, candle_fields(*request))
            },
            Err(e) => if binding_of(exchange).is_none() {
                e == (FeedError::UnsupportedExchangeError { exchange })
            } else {
                request.fault() matches Some(fault) && e == (FeedError::InvalidRequestError {
                    fault,
                })
            },
        },
{
    match select(exchange) {
        Err(e) => Err(e),
        Ok(Binding::BinanceSpot) => candles_url(request),
    }
}

/// The URL to get for the trades of a request.
///
/// Fails with `UnsupportedExchangeError` where the exchange has no bindings,
/// else with `InvalidRequestError` where the request is refused; in both
/// cases there is nothing to send.
pub fn trades_call(exchange: Exchange, request: &TradeRequest) -> (r: Result<String, FeedError>)
    ensures
        match r {
            Ok(url) => {
                &&& binding_of(exchange) == Some(Binding::BinanceSpot)
                &&& request.fault().is_none()
                &&& url@ == url_text(Endpoint::AggTrades, trade_fields(*request))
            },
            Err(e) => if binding_of(exchange).is_none() {
                e == (FeedError::UnsupportedExchangeError { exchange })
            } else {
                request.fault() matches Some(fault) && e == (FeedError::InvalidRequestError {
                    fault,
                })
            },
        },
{
    match select(exchange) {
        Err(e) => Err(e),
        Ok(Binding::BinanceSpot) => trades_url(request),
    }
}

/// Whether `r` is the outcome of reading `reply` as the candles of an
/// exchange: `UnsupportedExchangeError` where the exchange has no bindings;
/// else the failure of the call, where it failed; else what reading the body
/// gives.
pub open spec fn candles_reply_outcome(
    exchange: Exchange,
    reply: Reply,
    r: Result<Seq<CandleView>, FeedErrorView>,
) -> bool {
    if binding_of(exchange).is_none() {
        r == Err::<Seq<CandleView>, FeedErrorView>(
            FeedErrorView::UnsupportedExchangeError { exchange },
        )
    } else {
        match classified(reply) {
            Err(e) => r == Err::<Seq<CandleView>, FeedErrorView>(e),
            Ok(body) => match json_document(body) {
                Some(doc) => candles_outcome(doc, r),
                None => r == Err::<Seq<CandleView>, FeedErrorView>(
                    FeedErrorView::DecodeError { reason: DecodeFault::InvalidJson },
                ),
            },
        }
    }
}

/// Whether `r` is the outcome of reading `reply` as the trades of an
/// exchange: `UnsupportedExchangeError` where the exchange has no bindings;
/// else the failure of the call, where it failed; else what reading the body
/// gives.
pub open spec fn trades_reply_outcome(
    exchange: Exchange,
    reply: Reply,
    r: Result<Seq<TradeView>, FeedErrorView>,
) -> bool {
    if binding_of(exchange).is_none() {
        r == Err::<Seq<TradeView>, FeedErrorView>(
            FeedErrorView::UnsupportedExchangeError { exchange },
        )
    } else {
        match classified(reply) {
            Err(e) => r == Err::<Seq<TradeView>, FeedErrorView>(e),
            Ok(body) => match json_document(body) {
                Some(doc) => trades_outcome(doc, r),
                None => r == Err::<Seq<TradeView>, FeedErrorView>(
                    FeedErrorView::DecodeError { reason: DecodeFault::InvalidJson },
                ),
            },
        }
    }
}

/// Reads what the call for candles came to.
pub fn candles_reply(exchange: Exchange, reply: Reply) -> (r: Result<Vec<Candle>, FeedError>)
    ensures
        candles_reply_outcome(exchange, reply, candles_result(r)),
{
    match select(exchange) {
        Err(e) => Err(e),
        Ok(Binding::BinanceSpot) => match classify(reply) {
            Err(e) => Err(e),
            Ok(body) => parse_candles(body.as_str()),
        },
    }
}

/// Reads what the call for trades came to.
pub fn trades_reply(exchange: Exchange, reply: Reply) -> (r: Result<Vec<Trade>, FeedError>)
    ensures
        trades_reply_outcome(exchange, reply, trades_result(r)),
{
    match select(exchange) {
        Err(e) => Err(e),
        Ok(Binding::BinanceSpot) => match classify(reply) {
            Err(e) => Err(e),
            Ok(body) => parse_trades(body.as_str()),
        },
    }
}

} // verus!
