use feed::types::{Exchange, TokenError};

#[test]
fn lib_interval() {
    let curr_interval = feed::Interval::OneDay;
    let my_interval: feed::Interval = "1w".parse().unwrap();

    assert_eq!(String::from(curr_interval), "1d");
    assert_eq!(my_interval, feed::Interval::OneWeek);
}

#[test]
fn types_interval() {
    let curr_interval = feed::types::Interval::OneDay;
    let my_interval: feed::types::Interval = "1w".parse().unwrap();

    assert_eq!(String::from(curr_interval), "1d");
    assert_eq!(my_interval, feed::types::Interval::OneWeek);
}

#[test]
fn exchange() {
    let curr_exchange = Exchange::Indodax;
    let my_exchange: Exchange = "indodax".parse().unwrap();

    assert_eq!(String::from(curr_exchange), "indodax");
    assert_eq!(my_exchange, Exchange::Indodax);
}

fn all_intervals() -> Vec<(feed::Interval, &'static str)> {
    vec![
        (feed::Interval::OneSecond, "1s"),
        (feed::Interval::OneMinute, "1m"),
        (feed::Interval::ThreeMinutes, "3m"),
        (feed::Interval::FiveMinutes, "5m"),
        (feed::Interval::FifteenMinutes, "15m"),
        (feed::Interval::ThirtyMinutes, "30m"),
        (feed::Interval::OneHour, "1h"),
        (feed::Interval::TwoHours, "2h"),
        (feed::Interval::FourHours, "4h"),
        (feed::Interval::SixHours, "6h"),
        (feed::Interval::EightHours, "8h"),
        (feed::Interval::TwelveHours, "12h"),
        (feed::Interval::OneDay, "1d"),
        (feed::Interval::ThreeDays, "3d"),
        (feed::Interval::OneWeek, "1w"),
        (feed::Interval::OneMonth, "1M"),
    ]
}

fn all_exchanges() -> Vec<(Exchange, &'static str)> {
    vec![
        (Exchange::Binance, "binance"),
        (Exchange::Bybit, "bybit"),
        (Exchange::Kucoin, "kucoin"),
        (Exchange::GateIO, "gateio"),
        (Exchange::Kraken, "kraken"),
        (Exchange::MEXC, "mexc"),
        (Exchange::OKX, "okx"),
        (Exchange::Indodax, "indodax"),
    ]
}

#[test]
fn every_interval_has_its_token() {
    for (interval, token) in all_intervals() {
        assert_eq!(interval.as_str(), token);
        assert_eq!(String::from(interval), token);
    }
}

#[test]
fn every_interval_round_trips() {
    for (interval, token) in all_intervals() {
        assert_eq!(feed::Interval::parse(interval.as_str()), Ok(interval));
        assert_eq!(feed::Interval::parse(token), Ok(interval));
        assert_eq!(token.parse::<feed::Interval>(), Ok(interval));
    }
}

#[test]
fn minute_and_month_differ_by_case() {
    assert_eq!(feed::Interval::parse("1m"), Ok(feed::Interval::OneMinute));
    assert_eq!(feed::Interval::parse("1M"), Ok(feed::Interval::OneMonth));
}

#[test]
fn unknown_interval_is_an_error() {
    assert_eq!(feed::Interval::parse("7m"), Err(TokenError::UnknownInterval));
    assert_eq!(feed::Interval::parse(""), Err(TokenError::UnknownInterval));
    assert_eq!(feed::Interval::parse("1H"), Err(TokenError::UnknownInterval));
    assert_eq!(feed::Interval::parse("1h "), Err(TokenError::UnknownInterval));
    assert_eq!("2w".parse::<feed::Interval>(), Err(TokenError::UnknownInterval));
}

#[test]
fn every_exchange_has_its_token() {
    for (exchange, token) in all_exchanges() {
        assert_eq!(exchange.as_str(), token);
        assert_eq!(String::from(exchange), token);
    }
}

#[test]
fn every_exchange_round_trips() {
    for (exchange, token) in all_exchanges() {
        assert_eq!(Exchange::parse(exchange.as_str()), Ok(exchange));
        assert_eq!(token.parse::<Exchange>(), Ok(exchange));
    }
}

#[test]
fn unknown_exchange_is_an_error() {
    assert_eq!(Exchange::parse("Binance"), Err(TokenError::UnknownExchange));
    assert_eq!(Exchange::parse(""), Err(TokenError::UnknownExchange));
    assert_eq!(Exchange::parse("coinbase"), Err(TokenError::UnknownExchange));
    assert_eq!("nyse".parse::<Exchange>(), Err(TokenError::UnknownExchange));
}
