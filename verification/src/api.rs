//! The market-data gateway contract: the typed results and failures that a
//! fetcher hands to the engine, and the validation that turns a raw quote
//! into a trusted one.
//!
//! A fetcher delivers closing prices and quotes as whole numbers of cents.
//! The percentage change of a quote is derived here, never trusted from
//! upstream: it is `(close - open) / open * 100`, kept as a whole number of
//! hundredths of a percent, the fractional part truncated toward zero.

use vstd::prelude::*;

verus! {

/// How a fetch of market data can fail.
#[derive(Clone, Copy, Debug, PartialEq, Eq, Structural)]
pub enum FetchError {
    /// The transport below the fetcher failed (connection, HTTP).
    Transport,
    /// The remote answered, but the payload could not be read.
    Malformed,
    /// The remote answered with zero data points.
    NoData,
}

/// How an operation on the watchlist can fail.
#[derive(Clone, Copy, Debug, PartialEq, Eq, Structural)]
pub enum StoreError {
    /// The symbol is already tracked; nothing was fetched or changed.
    AlreadyTracked,
    /// The symbol is not tracked; nothing was changed.
    NotTracked,
    /// The fetch of the historical closing prices failed.
    HistoricalFetch(FetchError),
    /// Fewer closing prices than the EMA period demands.
    InsufficientHistory,
    /// The fetch of the latest quote failed.
    LatestFetch(FetchError),
    /// The latest quote was rejected: a zero price, or a percentage change
    /// too large to represent.
    InvalidData,
    /// The unit of work running a symbol's pipeline failed.
    TaskFailure,
}

/// A validated latest quote for one symbol. Prices are cents; the
/// percentage change is hundredths of a percent.
#[derive(Debug)]
pub struct StockData {
    pub symbol: String,
    pub open: u64,
    pub close: u64,
    pub percentage_change: i64,
}

/// The percentage change of a quote, in hundredths of a percent, with the
/// fractional part truncated toward zero. Meaningful for `open > 0`.
pub open spec fn pct_value(open: int, close: int) -> int {
    if close >= open {
        ((close - open) * 10000) / open
    } else {
        -(((open - close) * 10000) / open)
    }
}

/// A quote is accepted when both prices are non-zero and its percentage
/// change is representable in an `i64`.
pub open spec fn valid_quote(open: u64, close: u64) -> bool {
    &&& open != 0
    &&& close != 0
    &&& -(i64::MAX as int) <= pct_value(open as int, close as int) <= i64::MAX as int
}

/// Validate a raw quote and derive its percentage change.
///
/// Returns `Err(StoreError::InvalidData)` exactly when the quote is
/// rejected: a zero open or close, or a change that does not fit.
pub fn make_stock_data(symbol: &str, open: u64, close: u64) -> (r: Result<
    StockData,
    StoreError,
>)
    ensures
        r is Ok <==> valid_quote(open, close),
        r is Err ==> r->Err_0 == StoreError::InvalidData,
        r is Ok ==> r->Ok_0.symbol@ == symbol@ && r->Ok_0.open == open && r->Ok_0.close == close
            && r->Ok_0.percentage_change as int == pct_value(open as int, close as int),
{
    if open == 0 || close == 0 {
        return Err(StoreError::InvalidData);
    }
    let negative: bool = close < open;
    let diff: u128 = if close >= open {
        (close as u128) - (open as u128)
    } else {
        (open as u128) - (close as u128)
    };
    let magnitude: u128 = (diff * 10000) / (open as u128);
    if magnitude > i64::MAX as u128 {
        return Err(StoreError::InvalidData);
    }
    let pct: i64 = if negative {
        -(magnitude as i64)
    } else {
        magnitude as i64
    };
    Ok(StockData { symbol: symbol.to_owned(), open, close, percentage_change: pct })
}

} // verus!
