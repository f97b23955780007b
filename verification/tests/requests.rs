use feed::binance::config::{CandleRequest, TradeRequest, MAX_LIMIT, SPOT_HOST};
use feed::binance::spot::{build_url, candles_url, trades_url, Endpoint};
use feed::dispatch::{candles_call, select, trades_call, Binding};
use feed::error::{FeedError, RequestFault};
use feed::query::{field, join};
use feed::types::{Exchange, Interval};

fn candle_request() -> CandleRequest {
    CandleRequest {
        symbol: "BTCUSDT".to_string(),
        interval: Interval::OneHour,
        start_time: None,
        end_time: None,
        timezone: None,
        limit: None,
    }
}

fn trade_request() -> TradeRequest {
    TradeRequest { symbol: "BTCUSDT".to_string(), start_time: None, end_time: None, limit: None }
}

fn refused(fault: RequestFault) -> Result<String, FeedError> {
    Err(FeedError::InvalidRequestError { fault })
}

#[test]
fn endpoint_paths() {
    assert_eq!(Endpoint::Klines.as_str(), "/api/v3/klines");
    assert_eq!(Endpoint::AggTrades.as_str(), "/api/v3/aggTrades");
    assert_eq!(String::from(Endpoint::Klines), "/api/v3/klines");
    assert_eq!(String::from(Endpoint::AggTrades), "/api/v3/aggTrades");
    assert_eq!(SPOT_HOST, "https://api.binance.com");
}

#[test]
fn absent_fields_are_left_out() {
    assert_eq!(
        candles_url(&candle_request()),
        Ok("https://api.binance.com/api/v3/klines?symbol=BTCUSDT&interval=1h".to_string())
    );
    assert_eq!(
        trades_url(&trade_request()),
        Ok("https://api.binance.com/api/v3/aggTrades?symbol=BTCUSDT".to_string())
    );
}

#[test]
fn all_fields_in_order() {
    let request = CandleRequest {
        symbol: "ETHUSDT".to_string(),
        interval: Interval::OneMonth,
        start_time: Some(1620000000000),
        end_time: Some(1620003600000),
        timezone: Some("0".to_string()),
        limit: Some(5),
    };
    assert_eq!(
        candles_url(&request),
        Ok("https://api.binance.com/api/v3/klines?symbol=ETHUSDT&interval=1M\
            &startTime=1620000000000&endTime=1620003600000&timeZone=0&limit=5"
            .to_string())
    );
    let request = TradeRequest {
        symbol: "ETHUSDT".to_string(),
        start_time: Some(1620000000000),
        end_time: Some(1620003600000),
        limit: Some(1000),
    };
    assert_eq!(
        trades_url(&request),
        Ok("https://api.binance.com/api/v3/aggTrades?symbol=ETHUSDT\
            &startTime=1620000000000&endTime=1620003600000&limit=1000"
            .to_string())
    );
}

#[test]
fn some_fields_only() {
    let mut request = candle_request();
    request.end_time = Some(0);
    request.limit = Some(1);
    assert_eq!(
        candles_url(&request),
        Ok("https://api.binance.com/api/v3/klines?symbol=BTCUSDT&interval=1h&endTime=0&limit=1"
            .to_string())
    );
}

#[test]
fn negative_times_keep_their_sign() {
    let mut request = trade_request();
    request.start_time = Some(i64::MIN);
    request.end_time = Some(-1);
    assert_eq!(
        trades_url(&request),
        Ok("https://api.binance.com/api/v3/aggTrades?symbol=BTCUSDT\
            &startTime=-9223372036854775808&endTime=-1"
            .to_string())
    );
    request.start_time = Some(i64::MAX);
    request.end_time = Some(i64::MAX);
    assert_eq!(
        trades_url(&request),
        Ok("https://api.binance.com/api/v3/aggTrades?symbol=BTCUSDT\
            &startTime=9223372036854775807&endTime=9223372036854775807"
            .to_string())
    );
}

#[test]
fn values_are_percent_encoded() {
    let mut request = candle_request();
    request.symbol = "BTC/USDT".to_string();
    request.timezone = Some("+08:00".to_string());
    assert_eq!(
        candles_url(&request),
        Ok("https://api.binance.com/api/v3/klines?symbol=BTC%2FUSDT&interval=1h\
            &timeZone=%2B08%3A00"
            .to_string())
    );
}

#[test]
fn field_encoding() {
    assert_eq!(field("symbol", "BTCUSDT"), "symbol=BTCUSDT");
    assert_eq!(field("k", "a b"), "k=a+b");
    assert_eq!(field("k", "a*b-c.d_e"), "k=a*b-c.d_e");
    assert_eq!(field("k", "a&b=c"), "k=a%26b%3Dc");
    assert_eq!(field("k", "~"), "k=%7E");
    assert_eq!(field("k", "\u{e9}"), "k=%C3%A9");
    assert_eq!(field("k", "\u{20ac}"), "k=%E2%82%AC");
    assert_eq!(field("a b", "c"), "a+b=c");
    assert_eq!(field("k", ""), "k=");
    assert_eq!(field("k", "\n"), "k=%0A");
}

#[test]
fn fields_are_joined_by_ampersand() {
    assert_eq!(join(&vec![]), "");
    assert_eq!(join(&vec!["a=1".to_string()]), "a=1");
    assert_eq!(join(&vec!["a=1".to_string(), "b=2".to_string(), "c=3".to_string()]), "a=1&b=2&c=3");
    assert_eq!(
        build_url(Endpoint::Klines, &vec!["a=1".to_string(), "b=2".to_string()]),
        "https://api.binance.com/api/v3/klines?a=1&b=2"
    );
    assert_eq!(build_url(Endpoint::AggTrades, &vec![]), "https://api.binance.com/api/v3/aggTrades?");
}

#[test]
fn reversed_range_is_refused() {
    let mut request = candle_request();
    request.start_time = Some(1620003600000);
    request.end_time = Some(1620000000000);
    assert_eq!(request.validate(), Err(FeedError::InvalidRequestError { fault: RequestFault::ReversedRange }));
    assert_eq!(candles_url(&request), refused(RequestFault::ReversedRange));
    assert_eq!(candles_call(Exchange::Binance, &request), refused(RequestFault::ReversedRange));

    let mut request = trade_request();
    request.start_time = Some(2);
    request.end_time = Some(1);
    assert_eq!(request.validate(), Err(FeedError::InvalidRequestError { fault: RequestFault::ReversedRange }));
    assert_eq!(trades_url(&request), refused(RequestFault::ReversedRange));
    assert_eq!(trades_call(Exchange::Binance, &request), refused(RequestFault::ReversedRange));
}

#[test]
fn equal_bounds_are_accepted() {
    let mut request = candle_request();
    request.start_time = Some(5);
    request.end_time = Some(5);
    assert_eq!(request.validate(), Ok(()));
    assert_eq!(
        candles_url(&request),
        Ok("https://api.binance.com/api/v3/klines?symbol=BTCUSDT&interval=1h&startTime=5&endTime=5"
            .to_string())
    );
}

#[test]
fn one_bound_alone_is_accepted() {
    let mut request = trade_request();
    request.start_time = Some(i64::MAX);
    assert_eq!(request.validate(), Ok(()));
    let mut request = trade_request();
    request.end_time = Some(i64::MIN);
    assert_eq!(request.validate(), Ok(()));
}

#[test]
fn empty_symbol_is_refused() {
    let mut request = candle_request();
    request.symbol = String::new();
    assert_eq!(candles_url(&request), refused(RequestFault::EmptySymbol));
    request.start_time = Some(2);
    request.end_time = Some(1);
    request.limit = Some(0);
    assert_eq!(candles_url(&request), refused(RequestFault::EmptySymbol));
    let mut request = trade_request();
    request.symbol = String::new();
    assert_eq!(trades_url(&request), refused(RequestFault::EmptySymbol));
}

#[test]
fn limit_bounds() {
    assert_eq!(MAX_LIMIT, 1000);
    let mut request = candle_request();
    request.limit = Some(0);
    assert_eq!(candles_url(&request), refused(RequestFault::LimitOutOfRange));
    request.limit = Some(1001);
    assert_eq!(candles_url(&request), refused(RequestFault::LimitOutOfRange));
    request.limit = Some(u64::MAX);
    assert_eq!(candles_url(&request), refused(RequestFault::LimitOutOfRange));
    request.limit = Some(1000);
    assert_eq!(
        candles_url(&request),
        Ok("https://api.binance.com/api/v3/klines?symbol=BTCUSDT&interval=1h&limit=1000".to_string())
    );
    request.limit = Some(1);
    assert_eq!(request.validate(), Ok(()));
    request.start_time = Some(2);
    request.end_time = Some(1);
    request.limit = Some(0);
    assert_eq!(candles_url(&request), refused(RequestFault::ReversedRange));
}

#[test]
fn requests_are_not_changed() {
    let request = candle_request();
    let _ = candles_url(&request);
    assert_eq!(request, candle_request());
}

#[test]
fn binance_is_routed() {
    assert_eq!(select(Exchange::Binance), Ok(Binding::BinanceSpot));
    assert_eq!(
        candles_call(Exchange::Binance, &candle_request()),
        Ok("https://api.binance.com/api/v3/klines?symbol=BTCUSDT&interval=1h".to_string())
    );
    assert_eq!(
        trades_call(Exchange::Binance, &trade_request()),
        Ok("https://api.binance.com/api/v3/aggTrades?symbol=BTCUSDT".to_string())
    );
}

#[test]
fn indodax_is_unsupported() {
    assert_eq!(
        select(Exchange::Indodax),
        Err(FeedError::UnsupportedExchangeError { exchange: Exchange::Indodax })
    );
    assert_eq!(
        candles_call(Exchange::Indodax, &candle_request()),
        Err(FeedError::UnsupportedExchangeError { exchange: Exchange::Indodax })
    );
    assert_eq!(
        trades_call(Exchange::Indodax, &trade_request()),
        Err(FeedError::UnsupportedExchangeError { exchange: Exchange::Indodax })
    );
}

#[test]
fn no_other_exchange_falls_back_to_binance() {
    let others = [
        Exchange::Bybit,
        Exchange::Kucoin,
        Exchange::GateIO,
        Exchange::Kraken,
        Exchange::MEXC,
        Exchange::OKX,
        Exchange::Indodax,
    ];
    for exchange in others {
        assert_eq!(select(exchange), Err(FeedError::UnsupportedExchangeError { exchange }));
        let mut request = candle_request();
        request.symbol = String::new();
        assert_eq!(
            candles_call(exchange, &request),
            Err(FeedError::UnsupportedExchangeError { exchange })
        );
    }
}
