//! The shapes exchanged with the market-data provider, as the fetcher sees
//! them: which query to issue, and what a query's reply carried.

use vstd::prelude::*;
use crate::data::Sample;

verus! {

/// The two query shapes the ladder issues: a short daily series, or a
/// fine-grained intraday series.
#[derive(Clone, Copy, Debug, PartialEq, Eq, Structural)]
pub enum RequestKind {
    MultiDay,
    Intraday,
}

impl RequestKind {
    /// The per-bucket granularity this query asks for.
    pub open spec fn interval_spec(self) -> Seq<char> {
        match self {
            RequestKind::MultiDay => "1d"@,
            RequestKind::Intraday => "1m"@,
        }
    }

    /// The time window this query asks for.
    pub open spec fn range_spec(self) -> Seq<char> {
        match self {
            RequestKind::MultiDay => "5d"@,
            RequestKind::Intraday => "1d"@,
        }
    }

    /// The provider's interval parameter for this query.
    pub fn interval(&self) -> (r: &'static str)
        ensures
            r@ == self.interval_spec(),
    {
        match self {
            RequestKind::MultiDay => "1d",
            RequestKind::Intraday => "1m",
        }
    }

    /// The provider's range parameter for this query.
    pub fn range(&self) -> (r: &'static str)
        ensures
            r@ == self.range_spec(),
    {
        match self {
            RequestKind::MultiDay => "5d",
            RequestKind::Intraday => "1d",
        }
    }
}

/// What one provider query came back with.
#[derive(Clone, Debug, PartialEq)]
pub enum ProviderReply {
    /// The request itself failed: a network or provider error, no data at all.
    Failed,
    /// The request succeeded. `quotes` is the bucket series (empty when the
    /// response carried none), `last` the single most recent sample, when one
    /// could be extracted from the response.
    Data { quotes: Vec<Sample>, last: Option<Sample> },
}

/// The replies gathered for one symbol: the mandatory first multi-day query,
/// and the follow-up query's reply where the ladder asked for one and the
/// caller issued it (`None` where it was never issued).
#[derive(Clone, Debug, PartialEq)]
pub struct SymbolReplies {
    pub first: ProviderReply,
    pub second: Option<ProviderReply>,
}

} // verus!
