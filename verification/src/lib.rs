//! Verified core of a stock-quote fetcher.
//!
//! For each requested ticker symbol the fetcher walks an ordered ladder of
//! provider queries, selects the first usable quote pair, and turns it into a
//! normalized price/change record. The network itself lives outside this
//! crate: callers perform the provider requests and hand the replies in as
//! plain data, and every decision taken on those replies is verified here.
//!
//! Prices are fixed-point integers in whatever scale the caller chooses;
//! every formula in the crate is scale-invariant. Change and percent-change
//! are kept as exact quotients, so a division by a zero baseline is visible
//! as a zero denominator instead of a non-finite number.

pub mod data;
pub mod fetcher;
pub mod provider;
