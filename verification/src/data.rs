//! The data the fetcher works on: provider samples, exact quotients, and the
//! normalized per-symbol record handed back to the caller.

use vstd::prelude::*;

verus! {

/// One provider-supplied time bucket. Prices are fixed-point integers in the
/// caller's chosen scale; the fetcher's formulas never depend on the scale.
#[derive(Clone, Copy, Debug, PartialEq, Eq, Structural)]
pub struct Sample {
    pub open: i64,
    pub high: i64,
    pub low: i64,
    pub close: i64,
}

/// An exact quotient `num / den`.
///
/// A denominator of zero records a division by a zero baseline: the unguarded
/// fallback tiers put the baseline straight into the denominator, so callers
/// can see the undefined case instead of a non-finite number.
#[derive(Clone, Copy, Debug, PartialEq, Eq, Structural)]
pub struct Ratio {
    pub num: i128,
    pub den: i128,
}

/// Mathematical image of a [`Ratio`].
pub struct RatioView {
    pub num: int,
    pub den: int,
}

impl View for Ratio {
    type V = RatioView;

    open spec fn view(&self) -> RatioView {
        RatioView { num: self.num as int, den: self.den as int }
    }
}

/// The normalized quote record for one symbol: the latest price, the change
/// against the tier's baseline, and the percent change, both as exact
/// quotients.
#[derive(Clone, Debug, PartialEq)]
pub struct StockData {
    pub symbol: String,
    pub price: i64,
    pub change: Ratio,
    pub change_percent: Ratio,
}

/// Mathematical image of a [`StockData`] record.
pub struct QuoteView {
    pub symbol: Seq<char>,
    pub price: int,
    pub change: RatioView,
    pub change_percent: RatioView,
}

impl View for StockData {
    type V = QuoteView;

    open spec fn view(&self) -> QuoteView {
        QuoteView {
            symbol: self.symbol@,
            price: self.price as int,
            change: self.change@,
            change_percent: self.change_percent@,
        }
    }
}

/// The one batch-level failure: no requested symbol produced a usable quote
/// through any tier.
#[derive(Clone, Copy, Debug, PartialEq, Eq, Structural)]
pub enum FetchError {
    AllSymbolsFailed,
}

impl FetchError {
    /// The human-readable message carried across the component boundary.
    pub fn message(&self) -> (r: &'static str)
        ensures
            r@ == "Failed to fetch any stock data"@,
    {
        "Failed to fetch any stock data"
    }
}

} // verus!
