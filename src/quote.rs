use vstd::prelude::*;

use crate::error::ApiError;
use crate::number::Number;

verus! {

/// A snapshot of one instrument's current trading price and metadata.
#[derive(Debug, Clone)]
pub struct Quote {
    pub symbol: String,
    pub short_name: Option<String>,
    pub long_name: Option<String>,
    pub regular_market_price: Number,
    pub regular_market_change: Option<Number>,
    pub currency: Option<String>,
    pub market_state: Option<String>,
}

/// One entry of `quoteResponse.result` as the quote endpoint sends it.
/// Wire names: `symbol`, `shortName`, `longName`, `regularMarketPrice`,
/// `regularMarketChange`, `currency`, `market_state`.
#[derive(Debug)]
pub struct QuoteResult {
    pub symbol: String,
    pub short_name: Option<String>,
    pub long_name: Option<String>,
    pub regular_market_price: Number,
    pub regular_market_change: Option<Number>,
    pub currency: Option<String>,
    pub market_state: Option<String>,
}

/// The domain quote for one wire entry: every field carried over as it is.
pub open spec fn quote_of(w: QuoteResult) -> Quote {
    Quote {
        symbol: w.symbol,
        short_name: w.short_name,
        long_name: w.long_name,
        regular_market_price: w.regular_market_price,
        regular_market_change: w.regular_market_change,
        currency: w.currency,
        market_state: w.market_state,
    }
}

/// The wire entry that a quote is written back as.
pub open spec fn quote_to_wire(q: Quote) -> QuoteResult {
    QuoteResult {
        symbol: q.symbol,
        short_name: q.short_name,
        long_name: q.long_name,
        regular_market_price: q.regular_market_price,
        regular_market_change: q.regular_market_change,
        currency: q.currency,
        market_state: q.market_state,
    }
}

/// The quotes for a whole result list, in the service's order.
pub open spec fn quotes_of(ws: Seq<QuoteResult>) -> Seq<Quote> {
    ws.map_values(|w: QuoteResult| quote_of(w))
}

/// Whether the text of `s` is one of the tickers in `requested`.
pub open spec fn is_requested(requested: Seq<String>, s: String) -> bool {
    exists|j: int| 0 <= j < requested.len() && #[trigger] requested[j]@ == s@
}

/// Maps each wire entry onto a `Quote`, keeping the service's order and
/// every entry (no dedup, no filtering).
pub fn quotes_from_response(results: Vec<QuoteResult>) -> (r: Vec<Quote>)
    ensures
        r@ == quotes_of(results@),
{
    let ghost ws = results@;
    let mut out: Vec<Quote> = Vec::new();
    for w in it: results.into_iter()
        invariant
            it.seq() == ws,
            out@ == quotes_of(it.seq().take(it.index() as int)),
    {
        proof {
            assert(it.seq().take(it.index() + 1) == it.seq().take(it.index() as int).push(w));
        }
        out.push(Quote {
            symbol: w.symbol,
            short_name: w.short_name,
            long_name: w.long_name,
            regular_market_price: w.regular_market_price,
            regular_market_change: w.regular_market_change,
            currency: w.currency,
            market_state: w.market_state,
        });
        proof {
            assert(out@ == quotes_of(it.seq().take(it.index() + 1)));
        }
    }
    proof {
        assert(ws.take(ws.len() as int) == ws);
    }
    out
}

/// Collapses the quotes for a single requested ticker into one quote.
/// Anything but exactly one result is a cardinality violation.
pub fn single_quote(quotes: Vec<Quote>) -> (r: Result<Quote, ApiError>)
    ensures
        quotes.len() == 1 ==> r == Ok::<Quote, ApiError>(quotes[0]),
        quotes.len() != 1 ==> r == Err::<Quote, ApiError>(ApiError::Cardinality { found: quotes.len() }),
{
    let n = quotes.len();
    if n == 1 {
        let mut quotes = quotes;
        Ok(quotes.remove(0))
    } else {
        Err(ApiError::Cardinality { found: n })
    }
}

/// When the service echoes only tickers that were asked for, every quote
/// that comes back carries one of the requested tickers.
pub proof fn lemma_quote_symbols_requested(requested: Seq<String>, results: Seq<QuoteResult>)
    requires
        forall|i: int| 0 <= i < results.len() ==> is_requested(requested, #[trigger] results[i].symbol),
    ensures
        forall|i: int|
            0 <= i < quotes_of(results).len() ==> is_requested(requested, #[trigger] quotes_of(results)[i].symbol),
{
    assert forall|i: int| 0 <= i < quotes_of(results).len() implies is_requested(
        requested,
        #[trigger] quotes_of(results)[i].symbol,
    ) by {
        assert(quotes_of(results)[i].symbol == results[i].symbol);
    }
}

/// Writing a mapped quote back in wire form gives the entry it came from:
/// no field, optional or not, is lost or altered.
pub proof fn lemma_quote_round_trip(w: QuoteResult)
    ensures
        quote_to_wire(quote_of(w)) == w,
{
}

} // verus!
