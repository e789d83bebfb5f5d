use vstd::prelude::*;

verus! {

/// The status code of a successful price response.
pub const HTTP_OK: u16 = 200;

/// Milliseconds the worker waits for the price response.
pub const FETCH_DEADLINE_MS: u64 = 8000;

/// A price read from the external source.
#[derive(Clone, Copy, Debug, PartialEq, Eq, Structural)]
pub struct PriceQuote {
    pub price_usd: u32,
}

/// Why a fetch produced no price.
#[derive(Clone, Copy, Debug, PartialEq, Eq, Structural)]
pub enum FetchError {
    /// The transport failed before a response arrived.
    Io,
    /// The deadline passed before a response arrived.
    Timeout,
    /// The response status was not 200.
    HttpStatus,
    /// The body was not UTF-8 or not the expected JSON shape.
    Decode,
}

/// What the transport reported for one price request.
#[derive(Clone, Debug)]
pub enum HttpOutcome {
    IoFailed,
    DeadlineReached,
    Response { code: u16, body: Vec<u8> },
}

/// The text that a byte sequence decodes to as UTF-8, or `None` where it is not UTF-8.
pub uninterp spec fn utf8_text(b: Seq<u8>) -> Option<Seq<char>>;

/// The unsigned integer at `data.price_usd` of a JSON text, or `None` where the text
/// is not JSON or holds no such integer there.
pub uninterp spec fn json_price(s: Seq<char>) -> Option<u64>;

/// Relies on `String::from_utf8`: it succeeds exactly on valid UTF-8, with the
/// decoded text.
#[verifier::external_body]
fn utf8_decode(b: &Vec<u8>) -> (r: Option<String>)
    ensures
        match r {
            Some(s) => utf8_text(b@) == Some(s@),
            None => utf8_text(b@).is_none(),
        },
{
    String::from_utf8(b.clone()).ok()
}

/// Relies on `serde_json::from_str` into a `serde_json::Value`, then on indexing
/// `["data"]["price_usd"]` and `Value::as_u64`.
#[verifier::external_body]
fn json_price_field(text: &str) -> (r: Option<u64>)
    ensures
        r == json_price(text@),
{
    serde_json::from_str::<serde_json::Value>(text).ok().and_then(|v| v["data"]["price_usd"].as_u64())
}

/// The quote that a `data.price_usd` field gives: it must fit a `u32`.
pub open spec fn quote_of_field(field: Option<u64>) -> Result<PriceQuote, FetchError> {
    match field {
        Some(p) => if p <= u32::MAX as u64 {
            Ok(PriceQuote { price_usd: p as u32 })
        } else {
            Err(FetchError::Decode)
        },
        None => Err(FetchError::Decode),
    }
}

/// The quote that a response body gives.
pub open spec fn quote_of_body(body: Seq<u8>) -> Result<PriceQuote, FetchError> {
    match utf8_text(body) {
        Some(text) => quote_of_field(json_price(text)),
        None => Err(FetchError::Decode),
    }
}

/// The result of a fetch, given what the transport reported.
pub open spec fn fetch_outcome(o: HttpOutcome) -> Result<PriceQuote, FetchError> {
    match o {
        HttpOutcome::IoFailed => Err(FetchError::Io),
        HttpOutcome::DeadlineReached => Err(FetchError::Timeout),
        HttpOutcome::Response { code, body } => if code != HTTP_OK {
            Err(FetchError::HttpStatus)
        } else {
            quote_of_body(body@)
        },
    }
}

/// Turns the `data.price_usd` field of a parsed body into a quote.
pub fn quote_from_field(field: Option<u64>) -> (r: Result<PriceQuote, FetchError>)
    ensures
        r == quote_of_field(field),
{
    match field {
        Some(p) => if p <= u32::MAX as u64 {
            Ok(PriceQuote { price_usd: p as u32 })
        } else {
            Err(FetchError::Decode)
        },
        None => Err(FetchError::Decode),
    }
}

/// Decodes a response body `{"data":{"price_usd":<integer>}}` into a quote.
pub fn decode_body(body: &Vec<u8>) -> (r: Result<PriceQuote, FetchError>)
    ensures
        r == quote_of_body(body@),
{
    match utf8_decode(body) {
        Some(text) => quote_from_field(json_price_field(text.as_str())),
        None => Err(FetchError::Decode),
    }
}

/// Classifies what the transport reported into a quote or a fetch error.
pub fn fetch_result(outcome: &HttpOutcome) -> (r: Result<PriceQuote, FetchError>)
    ensures
        r == fetch_outcome(*outcome),
{
    match outcome {
        HttpOutcome::IoFailed => Err(FetchError::Io),
        HttpOutcome::DeadlineReached => Err(FetchError::Timeout),
        HttpOutcome::Response { code, body } => if *code != HTTP_OK {
            Err(FetchError::HttpStatus)
        } else {
            decode_body(body)
        },
    }
}

} // verus!
