//! Requests to the Binance spot API as URLs, and its response bodies as
//! candles and trades.

use crate::binance::config::{CandleRequest, TradeRequest, SPOT_HOST};
use crate::error::{DecodeFault, FeedError, FeedErrorView, Field};
use crate::json::{decode, json_document, values, Json, JsonValue};
use crate::number::{decimal, decimal_nat, is_float, is_float_text, signed_text, unsigned_text};
use crate::query::{field, field_text, join, joined, texts};
use crate::types::{Candle, CandleView, Trade, TradeView};
use vstd::prelude::*;

verus! {

/// The endpoints of the spot API that this library calls.
#[derive(Debug, Clone, Copy, PartialEq, Eq, Structural)]
pub enum Endpoint {
    Klines,
    AggTrades,
}

impl Endpoint {
    /// The path of an endpoint.
    pub open spec fn path(self) -> Seq<char> {
        match self {
            Endpoint::Klines => "/api/v3/klines"@,
            Endpoint::AggTrades => "/api/v3/aggTrades"@,
        }
    }

    /// The path of this endpoint.
    pub fn as_str(&self) -> (r: &'static str)
        ensures
            r@ == self.path(),
    {
        match self {
            Endpoint::Klines => "/api/v3/klines",
            Endpoint::AggTrades => "/api/v3/aggTrades",
        }
    }
}

impl vstd::std_specs::convert::FromSpecImpl<Endpoint> for String {
    open spec fn obeys_from_spec() -> bool {
        false
    }

    open spec fn from_spec(item: Endpoint) -> String {
        arbitrary()
    }
}

impl From<Endpoint> for String {
    fn from(item: Endpoint) -> (r: String)
        ensures
            r@ == item.path(),
    {
        String::from_str(item.as_str())
    }
}

/// The field for an optional value: none where the value is absent.
pub open spec fn optional_field(key: Seq<char>, value: Option<Seq<char>>) -> Seq<Seq<char>> {
    match value {
        Some(v) => seq![field_text(key, v)],
        None => Seq::empty(),
    }
}

/// The text of an optional time.
pub open spec fn time_text(time: Option<i64>) -> Option<Seq<char>> {
    match time {
        Some(t) => Some(decimal(t as int)),
        None => None,
    }
}

/// The text of an optional limit.
pub open spec fn limit_text(limit: Option<u64>) -> Option<Seq<char>> {
    match limit {
        Some(n) => Some(decimal_nat(n as nat)),
        None => None,
    }
}

/// The text of an optional time zone.
pub open spec fn zone_text(zone: Option<String>) -> Option<Seq<char>> {
    match zone {
        Some(z) => Some(z@),
        None => None,
    }
}

/// The query fields of a candle request, in order. An absent value gives no
/// field.
pub open spec fn candle_fields(request: CandleRequest) -> Seq<Seq<char>> {
    seq![
        field_text("symbol"@, request.symbol@),
        field_text("interval"@, request.interval.token()),
    ] + optional_field("startTime"@, time_text(request.start_time)) + optional_field(
        "endTime"@,
        time_text(request.end_time),
    ) + optional_field("timeZone"@, zone_text(request.timezone)) + optional_field(
        "limit"@,
        limit_text(request.limit),
    )
}

/// The query fields of a trade request, in order. An absent value gives no
/// field.
pub open spec fn trade_fields(request: TradeRequest) -> Seq<Seq<char>> {
    seq![field_text("symbol"@, request.symbol@)] + optional_field(
        "startTime"@,
        time_text(request.start_time),
    ) + optional_field("endTime"@, time_text(request.end_time)) + optional_field(
        "limit"@,
        limit_text(request.limit),
    )
}

/// The URL of a call: host, path, `?` and the fields joined by `&`.
pub open spec fn url_text(endpoint: Endpoint, fields: Seq<Seq<char>>) -> Seq<char> {
    SPOT_HOST@ + endpoint.path() + seq!['?'] + joined(fields)
}

/// Builds the URL of a call from its fields.
pub fn build_url(endpoint: Endpoint, fields: &Vec<String>) -> (url: String)
    ensures
        url@ == url_text(endpoint, texts(fields@)),
{
    let mut url = String::from_str(SPOT_HOST);
    url.append(endpoint.as_str());
    url.append("?");
    let query = join(fields);
    url.append(query.as_str());
    proof {
        reveal_strlit("?");
        assert(url@ =~= url_text(endpoint, texts(fields@)));
    }
    url
}

/// Adds the field of a time that is present.
fn push_time(fields: &mut Vec<String>, key: &str, time: Option<i64>)
    ensures
        texts(final(fields)@) == texts(old(fields)@) + optional_field(key@, time_text(time)),
{
    if let Some(t) = time {
        let text = signed_text(t);
        fields.push(field(key, text.as_str()));
    }
    assert(texts(fields@) =~= texts(old(fields)@) + optional_field(key@, time_text(time)));
}

/// Adds the field of a limit that is present.
fn push_limit(fields: &mut Vec<String>, key: &str, limit: Option<u64>)
    ensures
        texts(final(fields)@) == texts(old(fields)@) + optional_field(key@, limit_text(limit)),
{
    if let Some(n) = limit {
        let text = unsigned_text(n);
        fields.push(field(key, text.as_str()));
    }
    assert(texts(fields@) =~= texts(old(fields)@) + optional_field(key@, limit_text(limit)));
}

/// The URL that asks for the candles of a request, or the reason why the
/// request is refused. The request is left as it is, and nothing is sent.
pub fn candles_url(request: &CandleRequest) -> (r: Result<String, FeedError>)
    ensures
        match r {
            Ok(url) => request.fault().is_none() && url@ == url_text(
                Endpoint::Klines,
                candle_fields(*request),
            ),
            Err(e) => request.fault() matches Some(fault) && e == (FeedError::InvalidRequestError {
                fault,
            }),
        },
{
    match request.validate() {
        Err(e) => Err(e),
        Ok(()) => {
            let mut fields: Vec<String> = Vec::new();
            fields.push(field("symbol", request.symbol.as_str()));
            fields.push(field("interval", request.interval.as_str()));
            push_time(&mut fields, "startTime", request.start_time);
            push_time(&mut fields, "endTime", request.end_time);
            let ghost before = texts(fields@);
            if let Some(zone) = &request.timezone {
                fields.push(field("timeZone", zone.as_str()));
            }
            assert(texts(fields@) =~= before + optional_field(
                "timeZone"@,
                zone_text(request.timezone),
            ));
            push_limit(&mut fields, "limit", request.limit);
            assert(texts(fields@) =~= candle_fields(*request));
            Ok(build_url(Endpoint::Klines, &fields))
        },
    }
}

/// The URL that asks for the trades of a request, or the reason why the
/// request is refused. The request is left as it is, and nothing is sent.
pub fn trades_url(request: &TradeRequest) -> (r: Result<String, FeedError>)
    ensures
        match r {
            Ok(url) => request.fault().is_none() && url@ == url_text(
                Endpoint::AggTrades,
                trade_fields(*request),
            ),
            Err(e) => request.fault() matches Some(fault) && e == (FeedError::InvalidRequestError {
                fault,
            }),
        },
{
    match request.validate() {
        Err(e) => Err(e),
        Ok(()) => {
            let mut fields: Vec<String> = Vec::new();
            fields.push(field("symbol", request.symbol.as_str()));
            push_time(&mut fields, "startTime", request.start_time);
            push_time(&mut fields, "endTime", request.end_time);
            push_limit(&mut fields, "limit", request.limit);
            assert(texts(fields@) =~= trade_fields(*request));
            Ok(build_url(Endpoint::AggTrades, &fields))
        },
    }
}

/// The item at index `i` of a row; `Null`, which is of no wanted type, where
/// the row has no such index.
pub open spec fn cell(cells: Seq<JsonValue>, i: int) -> JsonValue {
    if 0 <= i < cells.len() {
        cells[i]
    } else {
        JsonValue::Null
    }
}

/// The text of a string that denotes a floating-point value.
pub open spec fn amount(value: JsonValue) -> Option<Seq<char>> {
    match value {
        JsonValue::Text(t) => if is_float_text(t) {
            Some(t)
        } else {
            None
        },
        _ => None,
    }
}

/// The candle that a row of items holds: the open time at index 0, then
/// open, high, low, close and volume, and the close time at index 6; items
/// beyond those are not read. Where a field is missing or of the wrong type,
/// the first such field, in the order open time, close time, open, high,
/// low, close, volume.
pub open spec fn candle_of(cells: Seq<JsonValue>) -> Result<CandleView, Field> {
    if cell(cells, 0).unsigned().is_none() {
        Err(Field::OpenTime)
    } else if cell(cells, 6).unsigned().is_none() {
        Err(Field::CloseTime)
    } else if amount(cell(cells, 1)).is_none() {
        Err(Field::Open)
    } else if amount(cell(cells, 2)).is_none() {
        Err(Field::High)
    } else if amount(cell(cells, 3)).is_none() {
        Err(Field::Low)
    } else if amount(cell(cells, 4)).is_none() {
        Err(Field::Close)
    } else if amount(cell(cells, 5)).is_none() {
        Err(Field::Volume)
    } else {
        Ok(
            CandleView {
                open_time: cell(cells, 0).unsigned()->0,
                close_time: cell(cells, 6).unsigned()->0,
                open: amount(cell(cells, 1))->0,
                high: amount(cell(cells, 2))->0,
                low: amount(cell(cells, 3))->0,
                close: amount(cell(cells, 4))->0,
                volume: amount(cell(cells, 5))->0,
            },
        )
    }
}

/// The value of the entry named `key` of an object, as an unsigned integer.
pub open spec fn unsigned_member(row: JsonValue, key: Seq<char>) -> Option<u64> {
    match row.member(key) {
        Some(value) => value.unsigned(),
        None => None,
    }
}

/// The value of the entry named `key` of an object, as an amount.
pub open spec fn amount_member(row: JsonValue, key: Seq<char>) -> Option<Seq<char>> {
    match row.member(key) {
        Some(value) => amount(value),
        None => None,
    }
}

/// The value of the entry named `key` of an object, as a boolean.
pub open spec fn boolean_member(row: JsonValue, key: Seq<char>) -> Option<bool> {
    match row.member(key) {
        Some(value) => value.boolean(),
        None => None,
    }
}

/// The trade that an object holds: the timestamp under `T`, price and
/// quantity under `p` and `q`, the buyer-maker flag under `m`; other entries
/// are not read. Where a field is missing or of the wrong type, the first
/// such field, in this order.
pub open spec fn trade_of(row: JsonValue) -> Result<TradeView, Field> {
    if unsigned_member(row, "T"@).is_none() {
        Err(Field::Timestamp)
    } else if amount_member(row, "p"@).is_none() {
        Err(Field::Price)
    } else if amount_member(row, "q"@).is_none() {
        Err(Field::Quantity)
    } else if boolean_member(row, "m"@).is_none() {
        Err(Field::BuyerMaker)
    } else {
        Ok(
            TradeView {
                timestamp: unsigned_member(row, "T"@)->0,
                price: amount_member(row, "p"@)->0,
                qty: amount_member(row, "q"@)->0,
                is_buyer_maker: boolean_member(row, "m"@)->0,
            },
        )
    }
}

/// The outcome of reading candles, as plain values.
pub open spec fn candles_result(r: Result<Vec<Candle>, FeedError>) -> Result<
    Seq<CandleView>,
    FeedErrorView,
> {
    match r {
        Ok(candles) => Ok(candles@.map_values(|c: Candle| c@)),
        Err(e) => Err(e@),
    }
}

/// The outcome of reading trades, as plain values.
pub open spec fn trades_result(r: Result<Vec<Trade>, FeedError>) -> Result<
    Seq<TradeView>,
    FeedErrorView,
> {
    match r {
        Ok(trades) => Ok(trades@.map_values(|t: Trade| t@)),
        Err(e) => Err(e@),
    }
}

/// Whether `r` is the outcome of reading the document `doc` as candles.
///
/// - The candles of all rows, in order, where the document is an array of
///   arrays and every row holds a candle.
/// - `DecodeError`: the document is no array, or its first row that is no
///   array is the one named.
/// - `MalformedRecordError`: all rows are arrays, and the row named is the
///   first that holds no candle, for want of the field named.
pub open spec fn candles_outcome(
    doc: JsonValue,
    r: Result<Seq<CandleView>, FeedErrorView>,
) -> bool {
    match r {
        Ok(candles) => {
            &&& doc matches JsonValue::Array(rows)
            &&& candles.len() == rows.len()
            &&& forall|i: int|
                0 <= i < rows.len() ==> (#[trigger] rows[i]) is Array && candle_of(
                    rows[i]->Array_0,
                ) == Ok::<CandleView, Field>(candles[i])
        },
        Err(FeedErrorView::DecodeError { reason: DecodeFault::NotAnArray }) => !(doc is Array),
        Err(FeedErrorView::DecodeError { reason: DecodeFault::WrongRowShape { row } }) => {
            &&& doc matches JsonValue::Array(rows)
            &&& row < rows.len()
            &&& !(rows[row as int] is Array)
            &&& forall|i: int| 0 <= i < row ==> (#[trigger] rows[i]) is Array
        },
        Err(FeedErrorView::MalformedRecordError { row, field }) => {
            &&& doc matches JsonValue::Array(rows)
            &&& forall|i: int| 0 <= i < rows.len() ==> (#[trigger] rows[i]) is Array
            &&& row < rows.len()
            &&& candle_of(rows[row as int]->Array_0) == Err::<CandleView, Field>(field)
            &&& forall|i: int| 0 <= i < row ==> candle_of((#[trigger] rows[i])->Array_0) is Ok
        },
        Err(_) => false,
    }
}

/// Whether `r` is the outcome of reading the document `doc` as trades.
///
/// - The trades of all rows, in order, where the document is an array of
///   objects and every row holds a trade.
/// - `DecodeError`: the document is no array, or its first row that is no
///   object is the one named.
/// - `MalformedRecordError`: all rows are objects, and the row named is the
///   first that holds no trade, for want of the field named.
pub open spec fn trades_outcome(doc: JsonValue, r: Result<Seq<TradeView>, FeedErrorView>) -> bool {
    match r {
        Ok(trades) => {
            &&& doc matches JsonValue::Array(rows)
            &&& trades.len() == rows.len()
            &&& forall|i: int|
                0 <= i < rows.len() ==> (#[trigger] rows[i]) is Object && trade_of(rows[i]) == Ok::<
                    TradeView,
                    Field,
                >(trades[i])
        },
        Err(FeedErrorView::DecodeError { reason: DecodeFault::NotAnArray }) => !(doc is Array),
        Err(FeedErrorView::DecodeError { reason: DecodeFault::WrongRowShape { row } }) => {
            &&& doc matches JsonValue::Array(rows)
            &&& row < rows.len()
            &&& !(rows[row as int] is Object)
            &&& forall|i: int| 0 <= i < row ==> (#[trigger] rows[i]) is Object
        },
        Err(FeedErrorView::MalformedRecordError { row, field }) => {
            &&& doc matches JsonValue::Array(rows)
            &&& forall|i: int| 0 <= i < rows.len() ==> (#[trigger] rows[i]) is Object
            &&& row < rows.len()
            &&& trade_of(rows[row as int]) == Err::<TradeView, Field>(field)
            &&& forall|i: int| 0 <= i < row ==> trade_of(#[trigger] rows[i]) is Ok
        },
        Err(_) => false,
    }
}

/// Reads the unsigned integer at index `i` of a row.
fn unsigned_at(cells: &Vec<Json>, i: usize) -> (r: Option<u64>)
    ensures
        r == cell(values(cells@), i as int).unsigned(),
{
    if i < cells.len() {
        cells[i].as_u64()
    } else {
        None
    }
}

/// Reads an amount: a string that denotes a floating-point value.
fn amount_of(value: &Json) -> (r: Option<String>)
    ensures
        match r {
            Some(t) => amount(value@) == Some(t@),
            None => amount(value@).is_none(),
        },
{
    match value.as_text() {
        Some(t) => {
            if is_float(t.as_str()) {
                Some(t.clone())
            } else {
                None
            }
        },
        None => None,
    }
}

/// Reads the amount at index `i` of a row.
fn amount_at(cells: &Vec<Json>, i: usize) -> (r: Option<String>)
    ensures
        match r {
            Some(t) => amount(cell(values(cells@), i as int)) == Some(t@),
            None => amount(cell(values(cells@), i as int)).is_none(),
        },
{
    if i < cells.len() {
        amount_of(&cells[i])
    } else {
        None
    }
}

/// Reads one candle from a row of items.
pub fn candle_from_cells(cells: &Vec<Json>) -> (r: Result<Candle, Field>)
    ensures
        match r {
            Ok(candle) => candle_of(values(cells@)) == Ok::<CandleView, Field>(candle@),
            Err(field) => candle_of(values(cells@)) == Err::<CandleView, Field>(field),
        },
{
    let open_time = match unsigned_at(cells, 0) {
        Some(t) => t,
        None => return Err(Field::OpenTime),
    };
    let close_time = match unsigned_at(cells, 6) {
        Some(t) => t,
        None => return Err(Field::CloseTime),
    };
    let open = match amount_at(cells, 1) {
        Some(t) => t,
        None => return Err(Field::Open),
    };
    let high = match amount_at(cells, 2) {
        Some(t) => t,
        None => return Err(Field::High),
    };
    let low = match amount_at(cells, 3) {
        Some(t) => t,
        None => return Err(Field::Low),
    };
    let close = match amount_at(cells, 4) {
        Some(t) => t,
        None => return Err(Field::Close),
    };
    let volume = match amount_at(cells, 5) {
        Some(t) => t,
        None => return Err(Field::Volume),
    };
    Ok(Candle { open_time, close_time, open, high, low, close, volume })
}

/// Reads one trade from an object.
pub fn trade_from_object(row: &Json) -> (r: Result<Trade, Field>)
    ensures
        match r {
            Ok(trade) => trade_of(row@) == Ok::<TradeView, Field>(trade@),
            Err(field) => trade_of(row@) == Err::<TradeView, Field>(field),
        },
{
    let timestamp = match row.member("T") {
        Some(value) => match value.as_u64() {
            Some(t) => t,
            None => return Err(Field::Timestamp),
        },
        None => return Err(Field::Timestamp),
    };
    let price = match row.member("p") {
        Some(value) => match amount_of(value) {
            Some(t) => t,
            None => return Err(Field::Price),
        },
        None => return Err(Field::Price),
    };
    let qty = match row.member("q") {
        Some(value) => match amount_of(value) {
            Some(t) => t,
            None => return Err(Field::Quantity),
        },
        None => return Err(Field::Quantity),
    };
    let is_buyer_maker = match row.member("m") {
        Some(value) => match value.as_bool() {
            Some(b) => b,
            None => return Err(Field::BuyerMaker),
        },
        None => return Err(Field::BuyerMaker),
    };
    Ok(Trade { timestamp, price, qty, is_buyer_maker })
}

/// Reads a document as candles: all of them, or none and the first fault.
pub fn candles_from_json(doc: &Json) -> (r: Result<Vec<Candle>, FeedError>)
    ensures
        candles_outcome(doc@, candles_result(r)),
{
    let rows = match doc.as_items() {
        Some(rows) => rows,
        None => return Err(FeedError::DecodeError { reason: DecodeFault::NotAnArray }),
    };
    let mut batch: Vec<&Vec<Json>> = Vec::new();
    let mut i: usize = 0;
    while i < rows.len()
        invariant
            i <= rows.len(),
            doc@ == JsonValue::Array(values(rows@)),
            batch.len() == i,
            forall|j: int|
                0 <= j < i ==> (#[trigger] values(rows@)[j]) == JsonValue::Array(
                    values(batch[j]@),
                ),
        decreases rows.len() - i,
    {
        match rows[i].as_items() {
            Some(cells) => batch.push(cells),
            None => {
                return Err(
                    FeedError::DecodeError { reason: DecodeFault::WrongRowShape { row: i } },
                );
            },
        }
        i += 1;
    }
    let mut candles: Vec<Candle> = Vec::new();
    let mut k: usize = 0;
    while k < batch.len()
        invariant
            k <= batch.len(),
            batch.len() == rows.len(),
            doc@ == JsonValue::Array(values(rows@)),
            forall|j: int|
                0 <= j < rows.len() ==> (#[trigger] values(rows@)[j]) == JsonValue::Array(
                    values(batch[j]@),
                ),
            candles.len() == k,
            forall|j: int|
                0 <= j < k ==> candle_of((#[trigger] values(rows@)[j])->Array_0) == Ok::<
                    CandleView,
                    Field,
                >(candles[j]@),
        decreases batch.len() - k,
    {
        match candle_from_cells(batch[k]) {
            Ok(candle) => candles.push(candle),
            Err(field) => {
                return Err(FeedError::MalformedRecordError { row: k, field });
            },
        }
        k += 1;
    }
    Ok(candles)
}

/// Reads a document as trades: all of them, or none and the first fault.
pub fn trades_from_json(doc: &Json) -> (r: Result<Vec<Trade>, FeedError>)
    ensures
        trades_outcome(doc@, trades_result(r)),
{
    let rows = match doc.as_items() {
        Some(rows) => rows,
        None => return Err(FeedError::DecodeError { reason: DecodeFault::NotAnArray }),
    };
    let mut i: usize = 0;
    while i < rows.len()
        invariant
            i <= rows.len(),
            doc@ == JsonValue::Array(values(rows@)),
            forall|j: int| 0 <= j < i ==> (#[trigger] values(rows@)[j]) is Object,
        decreases rows.len() - i,
    {
        if !rows[i].is_object() {
            return Err(FeedError::DecodeError { reason: DecodeFault::WrongRowShape { row: i } });
        }
        i += 1;
    }
    let mut trades: Vec<Trade> = Vec::new();
    let mut k: usize = 0;
    while k < rows.len()
        invariant
            k <= rows.len(),
            doc@ == JsonValue::Array(values(rows@)),
            forall|j: int| 0 <= j < rows.len() ==> (#[trigger] values(rows@)[j]) is Object,
            trades.len() == k,
            forall|j: int|
                0 <= j < k ==> trade_of(#[trigger] values(rows@)[j]) == Ok::<TradeView, Field>(
                    trades[j]@,
                ),
        decreases rows.len() - k,
    {
        match trade_from_object(&rows[k]) {
            Ok(trade) => trades.push(trade),
            Err(field) => {
                return Err(FeedError::MalformedRecordError { row: k, field });
            },
        }
        k += 1;
    }
    Ok(trades)
}

/// Reads a response body as candles. The body is first read as a JSON
/// document; a body that is none gives a `DecodeError`.
pub fn parse_candles(body: &str) -> (r: Result<Vec<Candle>, FeedError>)
    ensures
        match json_document(body@) {
            Some(doc) => candles_outcome(doc, candles_result(r)),
            None => candles_result(r) == Err::<Seq<CandleView>, FeedErrorView>(
                FeedErrorView::DecodeError { reason: DecodeFault::InvalidJson },
            ),
        },
{
    match decode(body) {
        Some(doc) => candles_from_json(&doc),
        None => Err(FeedError::DecodeError { reason: DecodeFault::InvalidJson }),
    }
}

/// Reads a response body as trades. The body is first read as a JSON
/// document; a body that is none gives a `DecodeError`.
pub fn parse_trades(body: &str) -> (r: Result<Vec<Trade>, FeedError>)
    ensures
        match json_document(body@) {
            Some(doc) => trades_outcome(doc, trades_result(r)),
            None => trades_result(r) == Err::<Seq<TradeView>, FeedErrorView>(
                FeedErrorView::DecodeError { reason: DecodeFault::InvalidJson },
            ),
        },
{
    match decode(body) {
        Some(doc) => trades_from_json(&doc),
        None => Err(FeedError::DecodeError { reason: DecodeFault::InvalidJson }),
    }
}

/// Reading a document as candles has one outcome.
pub proof fn lemma_candles_outcome_is_unique(
    doc: JsonValue,
    a: Result<Seq<CandleView>, FeedErrorView>,
    b: Result<Seq<CandleView>, FeedErrorView>,
)
    requires
        candles_outcome(doc, a),
        candles_outcome(doc, b),
    ensures
        a == b,
{
    if a is Ok && b is Ok {
        let rows = doc->Array_0;
        assert forall|i: int| 0 <= i < rows.len() implies a->Ok_0[i] == b->Ok_0[i] by {
            assert(candle_of(rows[i]->Array_0) is Ok);
        }
        assert(a->Ok_0 =~= b->Ok_0);
    }
}

/// A row that holds no candle fails the whole batch: no candle is returned.
/// Where every row of the document is an array, the failure is a
/// `MalformedRecordError`; a row that is no array makes it a `DecodeError`.
pub proof fn lemma_malformed_row_fails_batch(
    rows: Seq<JsonValue>,
    bad: int,
    r: Result<Seq<CandleView>, FeedErrorView>,
)
    requires
        0 <= bad < rows.len(),
        rows[bad] is Array,
        candle_of(rows[bad]->Array_0) is Err,
        candles_outcome(JsonValue::Array(rows), r),
    ensures
        r is Err,
        (forall|i: int| 0 <= i < rows.len() ==> (#[trigger] rows[i]) is Array) ==> r->Err_0
            is MalformedRecordError,
{
}

/// The amounts of a candle that was read denote floating-point values.
pub proof fn lemma_candle_is_well_formed(cells: Seq<JsonValue>)
    ensures
        candle_of(cells) matches Ok(candle) ==> candle.wf(),
{
}

/// Reading a document as trades has one outcome.
pub proof fn lemma_trades_outcome_is_unique(
    doc: JsonValue,
    a: Result<Seq<TradeView>, FeedErrorView>,
    b: Result<Seq<TradeView>, FeedErrorView>,
)
    requires
        trades_outcome(doc, a),
        trades_outcome(doc, b),
    ensures
        a == b,
{
    if a is Ok && b is Ok {
        let rows = doc->Array_0;
        assert forall|i: int| 0 <= i < rows.len() implies a->Ok_0[i] == b->Ok_0[i] by {
            assert(trade_of(rows[i]) is Ok);
        }
        assert(a->Ok_0 =~= b->Ok_0);
    }
}

/// A row that holds no trade fails the whole batch: no trade is returned.
/// Where every row of the document is an object, the failure is a
/// `MalformedRecordError`; a row that is no object makes it a `DecodeError`.
pub proof fn lemma_malformed_object_fails_batch(
    rows: Seq<JsonValue>,
    bad: int,
    r: Result<Seq<TradeView>, FeedErrorView>,
)
    requires
        0 <= bad < rows.len(),
        rows[bad] is Object,
        trade_of(rows[bad]) is Err,
        trades_outcome(JsonValue::Array(rows), r),
    ensures
        r is Err,
        (forall|i: int| 0 <= i < rows.len() ==> (#[trigger] rows[i]) is Object) ==> r->Err_0
            is MalformedRecordError,
{
}

/// Price and quantity of a trade that was read denote floating-point values.
pub proof fn lemma_trade_is_well_formed(row: JsonValue)
    ensures
        trade_of(row) matches Ok(trade) ==> trade.wf(),
{
}

} // verus!
