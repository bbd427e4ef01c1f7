//! Errors the library reports.

use vstd::prelude::*;

verus! {

/// Why a request was refused.
#[derive(Debug, Clone, PartialEq, Eq)]
pub enum StockerError {
    /// The input is not a usable ticker; carries the offending text.
    InvalidSymbol(String),
    /// The data provider returned no quote for the symbol.
    NoQuoteData,
    /// The URL points at a source that market data must never come from.
    ForbiddenDataSource(String),
}

/// The text an `InvalidSymbol` refusal carries; `None` for other errors.
pub open spec fn invalid_symbol_text(e: StockerError) -> Option<Seq<char>> {
    match e {
        StockerError::InvalidSymbol(m) => Some(m@),
        _ => None,
    }
}

/// The text a `ForbiddenDataSource` refusal carries; `None` for other errors.
pub open spec fn forbidden_source_text(e: StockerError) -> Option<Seq<char>> {
    match e {
        StockerError::ForbiddenDataSource(m) => Some(m@),
        _ => None,
    }
}

/// `Result` with the library's error.
pub type Result<T> = core::result::Result<T, StockerError>;

} // verus!
