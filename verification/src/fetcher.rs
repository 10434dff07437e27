//! The quote ladder itself: the per-tier quote computations, the step
//! functions that drive one symbol through the ladder, and the batch walk.

use vstd::prelude::*;
use crate::data::{FetchError, QuoteView, Ratio, RatioView, Sample, StockData};
use crate::provider::{ProviderReply, RequestKind, SymbolReplies};

verus! {

/// The record the preferred multi-day tier builds: the last bucket's close
/// against the second-to-last bucket's close.
pub open spec fn series_view(symbol: Seq<char>, quotes: Seq<Sample>) -> QuoteView
    recommends
        quotes.len() >= 2,
{
    let current = quotes[quotes.len() - 1];
    let previous = quotes[quotes.len() - 2];
    QuoteView {
        symbol,
        price: current.close as int,
        change: RatioView { num: current.close - previous.close, den: 1 },
        change_percent: RatioView {
            num: 100 * (current.close - previous.close),
            den: previous.close as int,
        },
    }
}

/// The record a single-quote tier builds from the session open baseline.
/// The first-pass tier guards a zero open by substituting a zero percent;
/// the retry tier does not, leaving the zero baseline in the denominator.
pub open spec fn open_baseline_view(symbol: Seq<char>, q: Sample, guarded: bool) -> QuoteView {
    QuoteView {
        symbol,
        price: q.close as int,
        change: RatioView { num: q.close - q.open, den: 1 },
        change_percent: if guarded && q.open == 0 {
            RatioView { num: 0, den: 1 }
        } else {
            RatioView { num: 100 * (q.close - q.open), den: q.open as int }
        },
    }
}

/// The record the error-path tier builds: the close against the midpoint of
/// the bucket's high and low. No zero guard: a zero midpoint stays in the
/// denominator.
pub open spec fn midpoint_view(symbol: Seq<char>, q: Sample) -> QuoteView {
    QuoteView {
        symbol,
        price: q.close as int,
        change: RatioView { num: 2 * q.close - q.high - q.low, den: 2 },
        change_percent: RatioView {
            num: 100 * (2 * q.close - q.high - q.low),
            den: q.high + q.low,
        },
    }
}

/// Builds the preferred multi-day record.
pub fn quote_from_series(symbol: &str, quotes: &Vec<Sample>) -> (r: StockData)
    requires
        quotes@.len() >= 2,
    ensures
        r@ == series_view(symbol@, quotes@),
{
    let n = quotes.len();
    let current = quotes[n - 1];
    let previous = quotes[n - 2];
    let diff: i128 = current.close as i128 - previous.close as i128;
    StockData {
        symbol: symbol.to_string(),
        price: current.close,
        change: Ratio { num: diff, den: 1 },
        change_percent: Ratio { num: 100 * diff, den: previous.close as i128 },
    }
}

/// Builds the guarded single-quote record of the first-pass fallback tier.
pub fn quote_session_open(symbol: &str, q: &Sample) -> (r: StockData)
    ensures
        r@ == open_baseline_view(symbol@, *q, true),
{
    let diff: i128 = q.close as i128 - q.open as i128;
    let change_percent = if q.open != 0 {
        Ratio { num: 100 * diff, den: q.open as i128 }
    } else {
        Ratio { num: 0, den: 1 }
    };
    StockData {
        symbol: symbol.to_string(),
        price: q.close,
        change: Ratio { num: diff, den: 1 },
        change_percent,
    }
}

/// Builds the unguarded single-quote record of the retried multi-day tier.
pub fn quote_session_open_retry(symbol: &str, q: &Sample) -> (r: StockData)
    ensures
        r@ == open_baseline_view(symbol@, *q, false),
{
    let diff: i128 = q.close as i128 - q.open as i128;
    StockData {
        symbol: symbol.to_string(),
        price: q.close,
        change: Ratio { num: diff, den: 1 },
        change_percent: Ratio { num: 100 * diff, den: q.open as i128 },
    }
}

/// Builds the midpoint-baseline record of the error-path tier.
pub fn quote_midpoint(symbol: &str, q: &Sample) -> (r: StockData)
    ensures
        r@ == midpoint_view(symbol@, *q),
{
    let doubled_diff: i128 = 2 * (q.close as i128) - q.high as i128 - q.low as i128;
    StockData {
        symbol: symbol.to_string(),
        price: q.close,
        change: Ratio { num: doubled_diff, den: 2 },
        change_percent: Ratio {
            num: 100 * doubled_diff,
            den: q.high as i128 + q.low as i128,
        },
    }
}

/// Which follow-up query, if any, the ladder issues after the first reply:
/// an intraday query when the first request itself failed, a second
/// multi-day query when it succeeded but yielded neither a two-bucket series
/// nor a single quote, and none when the first reply was already usable.
pub open spec fn follow_up(first: ProviderReply) -> Option<RequestKind> {
    match first {
        ProviderReply::Failed => Some(RequestKind::Intraday),
        ProviderReply::Data { quotes, last } => if quotes@.len() >= 2 {
            None
        } else if last is Some {
            None
        } else {
            Some(RequestKind::MultiDay)
        },
    }
}

/// The record the ladder settles on without a follow-up query: the series
/// tier when the first reply has at least two buckets, else the guarded
/// single-quote tier when it has a last quote.
pub open spec fn immediate_view(symbol: Seq<char>, first: ProviderReply) -> Option<QuoteView> {
    match first {
        ProviderReply::Failed => None,
        ProviderReply::Data { quotes, last } => if quotes@.len() >= 2 {
            Some(series_view(symbol, quotes@))
        } else {
            match last {
                Some(q) => Some(open_baseline_view(symbol, q, true)),
                None => None,
            }
        },
    }
}

/// The record the ladder extracts from a follow-up reply: only its last
/// quote counts, read against the open baseline (unguarded) after a retried
/// multi-day query, and against the high/low midpoint after an intraday one.
pub open spec fn retry_view(symbol: Seq<char>, kind: RequestKind, reply: ProviderReply) -> Option<
    QuoteView,
> {
    match reply {
        ProviderReply::Data { last: Some(q), .. } => Some(
            match kind {
                RequestKind::MultiDay => open_baseline_view(symbol, q, false),
                RequestKind::Intraday => midpoint_view(symbol, q),
            },
        ),
        _ => None,
    }
}

/// What one symbol's gathered replies resolve to through the whole ladder.
/// A follow-up the ladder asked for but the caller never issued counts as a
/// miss.
pub open spec fn resolve_view(symbol: Seq<char>, replies: SymbolReplies) -> Option<QuoteView> {
    match follow_up(replies.first) {
        None => immediate_view(symbol, replies.first),
        Some(kind) => match replies.second {
            Some(reply) => retry_view(symbol, kind, reply),
            None => None,
        },
    }
}

/// The image of an optional record.
pub open spec fn option_view(o: Option<StockData>) -> Option<QuoteView> {
    match o {
        Some(q) => Some(q@),
        None => None,
    }
}

/// What the ladder decides after the first reply: either a settled outcome,
/// or the follow-up query the caller should issue next.
#[derive(Debug, PartialEq)]
pub enum Attempt {
    Done(Option<StockData>),
    Retry(RequestKind),
}

/// Drives one symbol through the first rung of the ladder.
pub fn first_step(symbol: &str, first: &ProviderReply) -> (r: Attempt)
    ensures
        match follow_up(*first) {
            None => r matches Attempt::Done(o) && option_view(o) == immediate_view(
                symbol@,
                *first,
            ),
            Some(kind) => r matches Attempt::Retry(k) && k == kind,
        },
{
    match first {
        ProviderReply::Failed => Attempt::Retry(RequestKind::Intraday),
        ProviderReply::Data { quotes, last } => {
            if quotes.len() >= 2 {
                Attempt::Done(Some(quote_from_series(symbol, quotes)))
            } else {
                match last {
                    Some(q) => Attempt::Done(Some(quote_session_open(symbol, q))),
                    None => Attempt::Retry(RequestKind::MultiDay),
                }
            }
        },
    }
}

/// Extracts a symbol's record from the follow-up reply the ladder asked for.
pub fn second_step(symbol: &str, kind: &RequestKind, reply: &ProviderReply) -> (r: Option<
    StockData,
>)
    ensures
        option_view(r) == retry_view(symbol@, *kind, *reply),
{
    match reply {
        ProviderReply::Data { last: Some(q), .. } => Some(
            match kind {
                RequestKind::MultiDay => quote_session_open_retry(symbol, q),
                RequestKind::Intraday => quote_midpoint(symbol, q),
            },
        ),
        _ => None,
    }
}

/// Resolves one symbol from its gathered replies, first rung then follow-up.
pub fn resolve_symbol(symbol: &str, replies: &SymbolReplies) -> (r: Option<StockData>)
    ensures
        option_view(r) == resolve_view(symbol@, *replies),
{
    match first_step(symbol, &replies.first) {
        Attempt::Done(o) => o,
        Attempt::Retry(kind) => match &replies.second {
            Some(reply) => second_step(symbol, &kind, reply),
            None => None,
        },
    }
}

/// What each symbol of a batch resolves to, in input order.
pub open spec fn batch_models(symbols: Seq<String>, replies: Seq<SymbolReplies>) -> Seq<
    Option<QuoteView>,
>
    recommends
        symbols.len() == replies.len(),
{
    Seq::new(symbols.len(), |i: int| resolve_view(symbols[i]@, replies[i]))
}

/// The records of the symbols that resolved, in input order.
pub open spec fn successes(models: Seq<Option<QuoteView>>) -> Seq<QuoteView>
    decreases models.len(),
{
    if models.len() == 0 {
        Seq::empty()
    } else {
        let rest = successes(models.drop_last());
        match models.last() {
            Some(q) => rest.push(q),
            None => rest,
        }
    }
}

/// Walks the whole batch: resolves each symbol through its ladder, keeps the
/// records of the symbols that succeeded in input order, and fails with the
/// batch-level error exactly when no symbol (or an empty input) produced one.
pub fn fetch_stocks(symbols: &Vec<String>, replies: &Vec<SymbolReplies>) -> (r: Result<
    Vec<StockData>,
    FetchError,
>)
    requires
        symbols@.len() == replies@.len(),
    ensures
        ({
            let models = batch_models(symbols@, replies@);
            &&& (r is Ok <==> successes(models).len() > 0)
            &&& (r matches Ok(out) ==> out@.map_values(|q: StockData| q@) == successes(models))
            &&& (r matches Err(e) ==> e == FetchError::AllSymbolsFailed)
            &&& (r is Err ==> forall|i: int| 0 <= i < models.len() ==> models[i] is None)
        }),
{
    let ghost models = batch_models(symbols@, replies@);
    let mut stocks: Vec<StockData> = Vec::new();
    let n = symbols.len();
    let mut i: usize = 0;
    while i < n
        invariant
            n == symbols@.len(),
            symbols@.len() == replies@.len(),
            i <= n,
            models == batch_models(symbols@, replies@),
            stocks@.map_values(|q: StockData| q@) == successes(models.take(i as int)),
        decreases n - i,
    {
        proof {
            assert(models.take(i + 1).drop_last() =~= models.take(i as int));
        }
        match resolve_symbol(symbols[i].as_str(), &replies[i]) {
            Some(q) => {
                let ghost prior = stocks@;
                stocks.push(q);
                proof {
                    assert(stocks@.map_values(|q: StockData| q@) =~= prior.map_values(
                        |q: StockData| q@,
                    ).push(q@));
                }
            },
            None => {},
        }
        i = i + 1;
    }
    proof {
        assert(models.take(n as int) =~= models);
    }
    if stocks.is_empty() {
        proof {
            lemma_successes_empty(models);
        }
        Err(FetchError::AllSymbolsFailed)
    } else {
        Ok(stocks)
    }
}

/// A batch yields no records exactly when every symbol of it failed every
/// tier.
pub proof fn lemma_successes_empty(models: Seq<Option<QuoteView>>)
    ensures
        successes(models).len() == 0 <==> (forall|i: int|
            0 <= i < models.len() ==> models[i] is None),
    decreases models.len(),
{
    if models.len() > 0 {
        lemma_successes_empty(models.drop_last());
        if successes(models).len() == 0 {
            assert(forall|i: int| 0 <= i < models.len() - 1 ==> models.drop_last()[i] == models[i]);
        }
    }
}

/// When every symbol resolves, the batch keeps one record per symbol, in
/// input order.
pub proof fn lemma_successes_all_some(models: Seq<Option<QuoteView>>)
    requires
        forall|i: int| 0 <= i < models.len() ==> models[i] is Some,
    ensures
        successes(models).len() == models.len(),
        forall|i: int| 0 <= i < models.len() ==> successes(models)[i] == models[i]->Some_0,
    decreases models.len(),
{
    if models.len() > 0 {
        assert(forall|i: int| 0 <= i < models.len() - 1 ==> models.drop_last()[i] == models[i]);
        lemma_successes_all_some(models.drop_last());
    }
}

/// When the provider answers every symbol's first query with a series of at
/// least two buckets, every symbol succeeds through the multi-day tier: the
/// batch has exactly one record per symbol, in input order, each computed
/// from its own series.
pub proof fn lemma_all_series_succeed(symbols: Seq<String>, replies: Seq<SymbolReplies>)
    requires
        symbols.len() == replies.len(),
        forall|i: int|
            0 <= i < replies.len() ==> (#[trigger] replies[i].first matches ProviderReply::Data {
                quotes,
                ..
            } && quotes@.len() >= 2),
    ensures
        successes(batch_models(symbols, replies)).len() == symbols.len(),
        forall|i: int|
            0 <= i < symbols.len() ==> successes(batch_models(symbols, replies))[i] == series_view(
                symbols[i]@,
                replies[i].first->quotes@,
            ),
{
    let models = batch_models(symbols, replies);
    assert(forall|i: int| 0 <= i < models.len() ==> models[i] is Some);
    lemma_successes_all_some(models);
}

/// The batch keeps exactly the records of the symbols that resolved, in
/// their original order: it is the resolved subsequence of the input.
pub proof fn lemma_successes_subsequence(models: Seq<Option<QuoteView>>)
    ensures
        successes(models) == models.filter(|o: Option<QuoteView>| o is Some).map_values(
            |o: Option<QuoteView>| o->Some_0,
        ),
    decreases models.len(),
{
    reveal(Seq::filter);
    if models.len() > 0 {
        lemma_successes_subsequence(models.drop_last());
        let pred = |o: Option<QuoteView>| o is Some;
        let unwrap = |o: Option<QuoteView>| o->Some_0;
        if pred(models.last()) {
            assert(models.filter(pred).map_values(unwrap) =~= models.drop_last().filter(
                pred,
            ).map_values(unwrap).push(unwrap(models.last())));
        }
    }
}

/// Fetching twice over the same symbols, with the provider handing back the
/// same replies, yields the same records, record for record: the batch
/// outcome is a function of the inputs alone.
pub proof fn lemma_fetch_idempotent(
    symbols: Seq<String>,
    replies: Seq<SymbolReplies>,
    out1: Seq<QuoteView>,
    out2: Seq<QuoteView>,
)
    requires
        out1 == successes(batch_models(symbols, replies)),
        out2 == successes(batch_models(symbols, replies)),
    ensures
        out1 == out2,
        out1.len() == out2.len(),
        forall|i: int| 0 <= i < out1.len() ==> out1[i] == out2[i],
{
}

/// Whether the status-indicator arrow points up: the change against the
/// tier's baseline is non-negative.
pub fn direction_is_up(q: &StockData) -> (r: bool)
    ensures
        r == (q@.change.num >= 0),
{
    q.change.num >= 0
}

} // verus!
