//! What one HTTP GET came to, and how it is classified.

use crate::error::{DecodeFault, FeedError, FeedErrorView};
use vstd::prelude::*;

verus! {

/// What one HTTP GET came to.
#[derive(Debug, PartialEq)]
pub enum Reply {
    /// No response arrived: connection failure, DNS failure or timeout.
    Unreachable { cause: String },
    /// A response arrived. The body is `None` where it could not be read.
    Answered { status: u16, body: Option<String> },
}

/// Whether a status is in the success class, 200 to 299.
pub open spec fn is_success(status: u16) -> bool {
    200 <= status <= 299
}

/// The text that stands for the body of a failed response that could not be
/// read.
pub open spec fn placeholder() -> Seq<char> {
    "Unknown error"@
}

/// The outcome of a call, as plain values: the body of a response in the
/// success class; an `UpstreamHttpError` with status and body for any other
/// response, the placeholder standing for a body that could not be read; a
/// `TransportError` with the cause where no response arrived; a
/// `DecodeError` where the body of a successful response could not be read.
pub open spec fn classified(reply: Reply) -> Result<Seq<char>, FeedErrorView> {
    match reply {
        Reply::Unreachable { cause } => Err(FeedErrorView::TransportError { cause: cause@ }),
        Reply::Answered { status, body } => if is_success(status) {
            match body {
                Some(text) => Ok(text@),
                None => Err(FeedErrorView::DecodeError { reason: DecodeFault::UnreadableBody }),
            }
        } else {
            Err(
                FeedErrorView::UpstreamHttpError {
                    status,
                    body: match body {
                        Some(text) => text@,
                        None => placeholder(),
                    },
                },
            )
        },
    }
}

/// The outcome of classifying, as plain values.
pub open spec fn body_result(r: Result<String, FeedError>) -> Result<Seq<char>, FeedErrorView> {
    match r {
        Ok(body) => Ok(body@),
        Err(e) => Err(e@),
    }
}

/// Classifies what a call came to: the raw body, or the failure.
pub fn classify(reply: Reply) -> (r: Result<String, FeedError>)
    ensures
        body_result(r) == classified(reply),
{
    match reply {
        Reply::Unreachable { cause } => Err(FeedError::TransportError { cause }),
        Reply::Answered { status, body } => {
            if 200 <= status && status <= 299 {
                match body {
                    Some(text) => Ok(text),
                    None => Err(FeedError::DecodeError { reason: DecodeFault::UnreadableBody }),
                }
            } else {
                let text = match body {
                    Some(text) => text,
                    None => String::from_str("Unknown error"),
                };
                Err(FeedError::UpstreamHttpError { status, body: text })
            }
        },
    }
}

} // verus!
