use vstd::prelude::*;
use vstd::string::StringExecFns;

verus! {

/// The service's address; every endpoint path is appended to a base such
/// as this one.
pub const DEFAULT_BASE_URL: &'static str = "https://query1.finance.yahoo.com";

/// The tickers' texts joined with commas, in the given order.
pub open spec fn comma_joined(symbols: Seq<String>) -> Seq<char>
    decreases symbols.len(),
{
    if symbols.len() == 0 {
        Seq::empty()
    } else if symbols.len() == 1 {
        symbols[0]@
    } else {
        comma_joined(symbols.drop_last()) + seq![','] + symbols.last()@
    }
}

/// The quote endpoint's URL for the given tickers.
pub open spec fn quote_url_of(base: Seq<char>, symbols: Seq<String>) -> Seq<char> {
    base + "/v7/finance/quote?symbols="@ + comma_joined(symbols)
}

/// The search endpoint's URL for a free-text query, asking for ten quote
/// matches and no news.
pub open spec fn search_url_of(base: Seq<char>, query: Seq<char>) -> Seq<char> {
    base + "/v1/finance/search?q="@ + query + "&quotesCount=10&newsCount=0"@
}

/// The chart endpoint's URL for one ticker at the given sampling interval.
pub open spec fn history_url_of(base: Seq<char>, symbol: Seq<char>, interval: Seq<char>) -> Seq<char> {
    base + "/v8/finance/chart/"@ + symbol + "?interval="@ + interval
}

/// Builds the quote endpoint's URL; duplicate tickers are passed on as given.
pub fn quote_url(base: &str, symbols: &Vec<String>) -> (r: String)
    ensures
        r@ == quote_url_of(base@, symbols@),
{
    let mut url = String::from_str(base);
    url.append("/v7/finance/quote?symbols=");
    let ghost prefix = url@;
    let n = symbols.len();
    let mut i: usize = 0;
    while i < n
        invariant
            n == symbols.len(),
            i <= n,
            url@ == prefix + comma_joined(symbols@.take(i as int)),
        decreases n - i,
    {
        proof {
            assert(symbols@.take(i + 1).drop_last() == symbols@.take(i as int));
        }
        if i > 0 {
            url.append(",");
            url.append(symbols[i].as_str());
            proof {
                reveal_strlit(",");
                assert(","@ == seq![',']);
                assert(prefix + comma_joined(symbols@.take(i as int)) + ","@ + symbols[i as int]@
                    == prefix + (comma_joined(symbols@.take(i as int)) + seq![','] + symbols[i as int]@));
            }
        } else {
            url.append(symbols[i].as_str());
            proof {
                assert(symbols@.take(0) == Seq::<String>::empty());
            }
        }
        i = i + 1;
    }
    proof {
        assert(symbols@.take(n as int) == symbols@);
    }
    url
}

/// Builds the search endpoint's URL for `query`.
pub fn search_url(base: &str, query: &str) -> (r: String)
    ensures
        r@ == search_url_of(base@, query@),
{
    let mut url = String::from_str(base);
    url.append("/v1/finance/search?q=");
    url.append(query);
    url.append("&quotesCount=10&newsCount=0");
    url
}

/// Builds the chart endpoint's URL for `symbol` sampled every `interval`
/// (a token such as `5m`).
pub fn history_url(base: &str, symbol: &str, interval: &str) -> (r: String)
    ensures
        r@ == history_url_of(base@, symbol@, interval@),
{
    let mut url = String::from_str(base);
    url.append("/v8/finance/chart/");
    url.append(symbol);
    url.append("?interval=");
    url.append(interval);
    url
}

} // verus!
