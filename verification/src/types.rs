//! The normalized domain model: candle granularities and exchange selectors,
//! each with its wire token.

use crate::number::is_float_text;
use crate::text::same_text;
use vstd::prelude::*;

verus! {

/// A token that names no interval, or no exchange.
#[derive(Debug, Clone, Copy, PartialEq, Eq, Structural)]
pub enum TokenError {
    UnknownInterval,
    UnknownExchange,
}

/// The time-bucket granularity of a candle series.
#[derive(Debug, Clone, Copy, PartialEq, Eq, Structural)]
pub enum Interval {
    OneSecond,
    OneMinute,
    ThreeMinutes,
    FiveMinutes,
    FifteenMinutes,
    ThirtyMinutes,
    OneHour,
    TwoHours,
    FourHours,
    SixHours,
    EightHours,
    TwelveHours,
    OneDay,
    ThreeDays,
    OneWeek,
    OneMonth,
}

impl Interval {
    /// The wire token of an interval.
    pub open spec fn token(self) -> Seq<char> {
        match self {
            Interval::OneSecond => "1s"@,
            Interval::OneMinute => "1m"@,
            Interval::ThreeMinutes => "3m"@,
            Interval::FiveMinutes => "5m"@,
            Interval::FifteenMinutes => "15m"@,
            Interval::ThirtyMinutes => "30m"@,
            Interval::OneHour => "1h"@,
            Interval::TwoHours => "2h"@,
            Interval::FourHours => "4h"@,
            Interval::SixHours => "6h"@,
            Interval::EightHours => "8h"@,
            Interval::TwelveHours => "12h"@,
            Interval::OneDay => "1d"@,
            Interval::ThreeDays => "3d"@,
            Interval::OneWeek => "1w"@,
            Interval::OneMonth => "1M"@,
        }
    }

    /// The interval that a token names, if any. Tokens are case-sensitive:
    /// `1m` is a minute and `1M` a month.
    pub open spec fn of_token(t: Seq<char>) -> Option<Interval> {
        if t == "1s"@ {
            Some(Interval::OneSecond)
        } else if t == "1m"@ {
            Some(Interval::OneMinute)
        } else if t == "3m"@ {
            Some(Interval::ThreeMinutes)
        } else if t == "5m"@ {
            Some(Interval::FiveMinutes)
        } else if t == "15m"@ {
            Some(Interval::FifteenMinutes)
        } else if t == "30m"@ {
            Some(Interval::ThirtyMinutes)
        } else if t == "1h"@ {
            Some(Interval::OneHour)
        } else if t == "2h"@ {
            Some(Interval::TwoHours)
        } else if t == "4h"@ {
            Some(Interval::FourHours)
        } else if t == "6h"@ {
            Some(Interval::SixHours)
        } else if t == "8h"@ {
            Some(Interval::EightHours)
        } else if t == "12h"@ {
            Some(Interval::TwelveHours)
        } else if t == "1d"@ {
            Some(Interval::OneDay)
        } else if t == "3d"@ {
            Some(Interval::ThreeDays)
        } else if t == "1w"@ {
            Some(Interval::OneWeek)
        } else if t == "1M"@ {
            Some(Interval::OneMonth)
        } else {
            None
        }
    }

    /// The wire token of this interval.
    pub fn as_str(&self) -> (r: &'static str)
        ensures
            r@ == self.token(),
    {
        match self {
            Interval::OneSecond => "1s",
            Interval::OneMinute => "1m",
            Interval::ThreeMinutes => "3m",
            Interval::FiveMinutes => "5m",
            Interval::FifteenMinutes => "15m",
            Interval::ThirtyMinutes => "30m",
            Interval::OneHour => "1h",
            Interval::TwoHours => "2h",
            Interval::FourHours => "4h",
            Interval::SixHours => "6h",
            Interval::EightHours => "8h",
            Interval::TwelveHours => "12h",
            Interval::OneDay => "1d",
            Interval::ThreeDays => "3d",
            Interval::OneWeek => "1w",
            Interval::OneMonth => "1M",
        }
    }

    /// Reads a wire token. An unknown token is an error, never a default.
    pub fn parse(s: &str) -> (r: Result<Interval, TokenError>)
        ensures
            r == match Interval::of_token(s@) {
                Some(i) => Ok::<Interval, TokenError>(i),
                None => Err(TokenError::UnknownInterval),
            },
    {
        if same_text(s, "1s") {
            Ok(Interval::OneSecond)
        } else if same_text(s, "1m") {
            Ok(Interval::OneMinute)
        } else if same_text(s, "3m") {
            Ok(Interval::ThreeMinutes)
        } else if same_text(s, "5m") {
            Ok(Interval::FiveMinutes)
        } else if same_text(s, "15m") {
            Ok(Interval::FifteenMinutes)
        } else if same_text(s, "30m") {
            Ok(Interval::ThirtyMinutes)
        } else if same_text(s, "1h") {
            Ok(Interval::OneHour)
        } else if same_text(s, "2h") {
            Ok(Interval::TwoHours)
        } else if same_text(s, "4h") {
            Ok(Interval::FourHours)
        } else if same_text(s, "6h") {
            Ok(Interval::SixHours)
        } else if same_text(s, "8h") {
            Ok(Interval::EightHours)
        } else if same_text(s, "12h") {
            Ok(Interval::TwelveHours)
        } else if same_text(s, "1d") {
            Ok(Interval::OneDay)
        } else if same_text(s, "3d") {
            Ok(Interval::ThreeDays)
        } else if same_text(s, "1w") {
            Ok(Interval::OneWeek)
        } else if same_text(s, "1M") {
            Ok(Interval::OneMonth)
        } else {
            Err(TokenError::UnknownInterval)
        }
    }

    /// Every interval is read back from its own token.
    pub proof fn lemma_round_trip(t: Interval)
        ensures
            Interval::of_token(t.token()) == Some(t),
    {
        Interval::reveal_tokens();
    }

    /// A token that names an interval is that interval's token.
    pub proof fn lemma_token_of_parsed(s: Seq<char>)
        ensures
            Interval::of_token(s) matches Some(t) ==> t.token() == s,
    {
    }

    proof fn reveal_tokens()
        ensures
            "1s"@ == seq!['1', 's'],
            "1m"@ == seq!['1', 'm'],
            "3m"@ == seq!['3', 'm'],
            "5m"@ == seq!['5', 'm'],
            "15m"@ == seq!['1', '5', 'm'],
            "30m"@ == seq!['3', '0', 'm'],
            "1h"@ == seq!['1', 'h'],
            "2h"@ == seq!['2', 'h'],
            "4h"@ == seq!['4', 'h'],
            "6h"@ == seq!['6', 'h'],
            "8h"@ == seq!['8', 'h'],
            "12h"@ == seq!['1', '2', 'h'],
            "1d"@ == seq!['1', 'd'],
            "3d"@ == seq!['3', 'd'],
            "1w"@ == seq!['1', 'w'],
            "1M"@ == seq!['1', 'M'],
    {
        reveal_strlit("1s");
        reveal_strlit("1m");
        reveal_strlit("3m");
        reveal_strlit("5m");
        reveal_strlit("15m");
        reveal_strlit("30m");
        reveal_strlit("1h");
        reveal_strlit("2h");
        reveal_strlit("4h");
        reveal_strlit("6h");
        reveal_strlit("8h");
        reveal_strlit("12h");
        reveal_strlit("1d");
        reveal_strlit("3d");
        reveal_strlit("1w");
        reveal_strlit("1M");
        assert("1s"@ =~= seq!['1', 's']);
        assert("1m"@ =~= seq!['1', 'm']);
        assert("3m"@ =~= seq!['3', 'm']);
        assert("5m"@ =~= seq!['5', 'm']);
        assert("15m"@ =~= seq!['1', '5', 'm']);
        assert("30m"@ =~= seq!['3', '0', 'm']);
        assert("1h"@ =~= seq!['1', 'h']);
        assert("2h"@ =~= seq!['2', 'h']);
        assert("4h"@ =~= seq!['4', 'h']);
        assert("6h"@ =~= seq!['6', 'h']);
        assert("8h"@ =~= seq!['8', 'h']);
        assert("12h"@ =~= seq!['1', '2', 'h']);
        assert("1d"@ =~= seq!['1', 'd']);
        assert("3d"@ =~= seq!['3', 'd']);
        assert("1w"@ =~= seq!['1', 'w']);
        assert("1M"@ =~= seq!['1', 'M']);
    }
}

impl std::str::FromStr for Interval {
    type Err = TokenError;

    fn from_str(s: &str) -> (r: Result<Interval, TokenError>)
        ensures
            r == match Interval::of_token(s@) {
                Some(i) => Ok::<Interval, TokenError>(i),
                None => Err(TokenError::UnknownInterval),
            },
    {
        Interval::parse(s)
    }
}

impl vstd::std_specs::convert::FromSpecImpl<Interval> for String {
    open spec fn obeys_from_spec() -> bool {
        false
    }

    open spec fn from_spec(item: Interval) -> String {
        arbitrary()
    }
}

impl From<Interval> for String {
    fn from(item: Interval) -> (r: String)
        ensures
            r@ == item.token(),
    {
        String::from_str(item.as_str())
    }
}

/// Selects the exchange whose bindings serve a request.
#[derive(Debug, Clone, Copy, PartialEq, Eq, Structural)]
pub enum Exchange {
    Binance,
    Bybit,
    Kucoin,
    GateIO,
    Kraken,
    MEXC,
    OKX,
    Indodax,
}

impl Exchange {
    /// The lower-case wire token of an exchange.
    pub open spec fn token(self) -> Seq<char> {
        match self {
            Exchange::Binance => "binance"@,
            Exchange::Bybit => "bybit"@,
            Exchange::Kucoin => "kucoin"@,
            Exchange::GateIO => "gateio"@,
            Exchange::Kraken => "kraken"@,
            Exchange::MEXC => "mexc"@,
            Exchange::OKX => "okx"@,
            Exchange::Indodax => "indodax"@,
        }
    }

    /// The exchange that a token names, if any.
    pub open spec fn of_token(t: Seq<char>) -> Option<Exchange> {
        if t == "binance"@ {
            Some(Exchange::Binance)
        } else if t == "bybit"@ {
            Some(Exchange::Bybit)
        } else if t == "kucoin"@ {
            Some(Exchange::Kucoin)
        } else if t == "gateio"@ {
            Some(Exchange::GateIO)
        } else if t == "kraken"@ {
            Some(Exchange::Kraken)
        } else if t == "mexc"@ {
            Some(Exchange::MEXC)
        } else if t == "okx"@ {
            Some(Exchange::OKX)
        } else if t == "indodax"@ {
            Some(Exchange::Indodax)
        } else {
            None
        }
    }

    /// The wire token of this exchange.
    pub fn as_str(&self) -> (r: &'static str)
        ensures
            r@ == self.token(),
    {
        match self {
            Exchange::Binance => "binance",
            Exchange::Bybit => "bybit",
            Exchange::Kucoin => "kucoin",
            Exchange::GateIO => "gateio",
            Exchange::Kraken => "kraken",
            Exchange::MEXC => "mexc",
            Exchange::OKX => "okx",
            Exchange::Indodax => "indodax",
        }
    }

    /// Reads a wire token. An unknown token is an error, never a default.
    pub fn parse(s: &str) -> (r: Result<Exchange, TokenError>)
        ensures
            r == match Exchange::of_token(s@) {
                Some(e) => Ok::<Exchange, TokenError>(e),
                None => Err(TokenError::UnknownExchange),
            },
    {
        if same_text(s, "binance") {
            Ok(Exchange::Binance)
        } else if same_text(s, "bybit") {
            Ok(Exchange::Bybit)
        } else if same_text(s, "kucoin") {
            Ok(Exchange::Kucoin)
        } else if same_text(s, "gateio") {
            Ok(Exchange::GateIO)
        } else if same_text(s, "kraken") {
            Ok(Exchange::Kraken)
        } else if same_text(s, "mexc") {
            Ok(Exchange::MEXC)
        } else if same_text(s, "okx") {
            Ok(Exchange::OKX)
        } else if same_text(s, "indodax") {
            Ok(Exchange::Indodax)
        } else {
            Err(TokenError::UnknownExchange)
        }
    }

    /// Every exchange is read back from its own token.
    pub proof fn lemma_round_trip(e: Exchange)
        ensures
            Exchange::of_token(e.token()) == Some(e),
    {
        reveal_strlit("binance");
        reveal_strlit("bybit");
        reveal_strlit("kucoin");
        reveal_strlit("gateio");
        reveal_strlit("kraken");
        reveal_strlit("mexc");
        reveal_strlit("okx");
        reveal_strlit("indodax");
        assert("binance"@.len() == 7 && "binance"@[0] == 'b');
        assert("bybit"@.len() == 5);
        assert("kucoin"@.len() == 6 && "kucoin"@[1] == 'u');
        assert("gateio"@.len() == 6 && "gateio"@[1] == 'a');
        assert("kraken"@.len() == 6 && "kraken"@[1] == 'r');
        assert("mexc"@.len() == 4);
        assert("okx"@.len() == 3);
        assert("indodax"@.len() == 7 && "indodax"@[0] == 'i');
    }

    /// A token that names an exchange is that exchange's token.
    pub proof fn lemma_token_of_parsed(s: Seq<char>)
        ensures
            Exchange::of_token(s) matches Some(e) ==> e.token() == s,
    {
    }
}

impl std::str::FromStr for Exchange {
    type Err = TokenError;

    fn from_str(s: &str) -> (r: Result<Exchange, TokenError>)
        ensures
            r == match Exchange::of_token(s@) {
                Some(e) => Ok::<Exchange, TokenError>(e),
                None => Err(TokenError::UnknownExchange),
            },
    {
        Exchange::parse(s)
    }
}

impl vstd::std_specs::convert::FromSpecImpl<Exchange> for String {
    open spec fn obeys_from_spec() -> bool {
        false
    }

    open spec fn from_spec(item: Exchange) -> String {
        arbitrary()
    }
}

impl From<Exchange> for String {
    fn from(item: Exchange) -> (r: String)
        ensures
            r@ == item.token(),
    {
        String::from_str(item.as_str())
    }
}

/// Open, high, low, close and volume of one time bucket. The five amounts
/// are kept as the decimal text that the exchange sent.
#[derive(Debug, PartialEq)]
pub struct Candle {
    pub open_time: u64,
    pub close_time: u64,
    pub open: String,
    pub high: String,
    pub low: String,
    pub close: String,
    pub volume: String,
}

/// A candle as plain values.
pub struct CandleView {
    pub open_time: u64,
    pub close_time: u64,
    pub open: Seq<char>,
    pub high: Seq<char>,
    pub low: Seq<char>,
    pub close: Seq<char>,
    pub volume: Seq<char>,
}

impl CandleView {
    /// Whether each of the five amounts denotes a floating-point value.
    pub open spec fn wf(self) -> bool {
        &&& is_float_text(self.open)
        &&& is_float_text(self.high)
        &&& is_float_text(self.low)
        &&& is_float_text(self.close)
        &&& is_float_text(self.volume)
    }
}

impl View for Candle {
    type V = CandleView;

    open spec fn view(&self) -> CandleView {
        CandleView {
            open_time: self.open_time,
            close_time: self.close_time,
            open: self.open@,
            high: self.high@,
            low: self.low@,
            close: self.close@,
            volume: self.volume@,
        }
    }
}

/// One executed transaction. Price and quantity are kept as the decimal
/// text that the exchange sent.
#[derive(Debug, PartialEq)]
pub struct Trade {
    pub timestamp: u64,
    pub price: String,
    pub qty: String,
    pub is_buyer_maker: bool,
}

/// A trade as plain values.
pub struct TradeView {
    pub timestamp: u64,
    pub price: Seq<char>,
    pub qty: Seq<char>,
    pub is_buyer_maker: bool,
}

impl TradeView {
    /// Whether price and quantity each denote a floating-point value.
    pub open spec fn wf(self) -> bool {
        is_float_text(self.price) && is_float_text(self.qty)
    }
}

impl View for Trade {
    type V = TradeView;

    open spec fn view(&self) -> TradeView {
        TradeView {
            timestamp: self.timestamp,
            price: self.price@,
            qty: self.qty@,
            is_buyer_maker: self.is_buyer_maker,
        }
    }
}

} // verus!
