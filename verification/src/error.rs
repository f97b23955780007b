//! The failures of a retrieval, each with what a caller needs to log it or to
//! decide what to do next.

use crate::types::Exchange;
use vstd::prelude::*;

verus! {

/// A field of a candle or of a trade.
#[derive(Debug, Clone, Copy, PartialEq, Eq, Structural)]
pub enum Field {
    OpenTime,
    CloseTime,
    Open,
    High,
    Low,
    Close,
    Volume,
    Timestamp,
    Price,
    Quantity,
    BuyerMaker,
}

/// Why a request is refused before anything is sent.
#[derive(Debug, Clone, Copy, PartialEq, Eq, Structural)]
pub enum RequestFault {
    /// The symbol is empty.
    EmptySymbol,
    /// The start time lies after the end time.
    ReversedRange,
    /// The limit is zero or above the exchange's maximum.
    LimitOutOfRange,
}

/// Why a response body is not the expected document.
#[derive(Debug, Clone, Copy, PartialEq, Eq, Structural)]
pub enum DecodeFault {
    /// The body of a successful response could not be read.
    UnreadableBody,
    /// The body is not valid JSON.
    InvalidJson,
    /// The document is not an array.
    NotAnArray,
    /// The row at this index has not the shape of a record.
    WrongRowShape { row: usize },
}

/// A failed retrieval.
#[derive(Debug, PartialEq)]
pub enum FeedError {
    /// No response arrived: connection failure, DNS failure or timeout.
    TransportError { cause: String },
    /// The exchange answered with a status outside 200..=299.
    UpstreamHttpError { status: u16, body: String },
    /// The response body is not a document of the expected outer shape.
    DecodeError { reason: DecodeFault },
    /// A field of the record at index `row` is missing or of the wrong type.
    /// No record of the batch is returned.
    MalformedRecordError { row: usize, field: Field },
    /// No binding exists for the exchange.
    UnsupportedExchangeError { exchange: Exchange },
    /// The request is refused before any network call.
    InvalidRequestError { fault: RequestFault },
}

/// A failed retrieval as plain values.
pub enum FeedErrorView {
    TransportError { cause: Seq<char> },
    UpstreamHttpError { status: u16, body: Seq<char> },
    DecodeError { reason: DecodeFault },
    MalformedRecordError { row: usize, field: Field },
    UnsupportedExchangeError { exchange: Exchange },
    InvalidRequestError { fault: RequestFault },
}

impl View for FeedError {
    type V = FeedErrorView;

    open spec fn view(&self) -> FeedErrorView {
        match self {
            FeedError::TransportError { cause } => FeedErrorView::TransportError { cause: cause@ },
            FeedError::UpstreamHttpError { status, body } => FeedErrorView::UpstreamHttpError {
                status: *status,
                body: body@,
            },
            FeedError::DecodeError { reason } => FeedErrorView::DecodeError { reason: *reason },
            FeedError::MalformedRecordError { row, field } => FeedErrorView::MalformedRecordError {
                row: *row,
                field: *field,
            },
            FeedError::UnsupportedExchangeError { exchange } => {
                FeedErrorView::UnsupportedExchangeError { exchange: *exchange }
            },
            FeedError::InvalidRequestError { fault } => FeedErrorView::InvalidRequestError {
                fault: *fault,
            },
        }
    }
}

} // verus!
