use vstd::prelude::*;

use crate::number::Number;

verus! {

/// One match of a symbol search. Results keep the service's ranking; the
/// score is reported, not recomputed.
#[derive(Debug, Clone)]
pub struct Symbol {
    pub symbol: String,
    pub score: Number,
    pub short_name: Option<String>,
    pub long_name: Option<String>,
    pub sector: Option<String>,
    pub industry: Option<String>,
    pub exchange: Option<String>,
    pub exch_disp: Option<String>,
}

/// One entry of the search endpoint's `quotes` list.
/// Wire names: `symbol`, `shortname`, `longname`, `sector`, `industry`,
/// `score`, `exchange`, `exchDisp`.
#[derive(Debug)]
pub struct SymbolResult {
    pub symbol: String,
    pub short_name: Option<String>,
    pub long_name: Option<String>,
    pub sector: Option<String>,
    pub industry: Option<String>,
    pub score: Number,
    pub exchange: Option<String>,
    pub exch_disp: Option<String>,
}

/// The search match for one wire entry: every field carried over as it is,
/// an absent optional field staying `None`.
pub open spec fn symbol_of(w: SymbolResult) -> Symbol {
    Symbol {
        symbol: w.symbol,
        score: w.score,
        short_name: w.short_name,
        long_name: w.long_name,
        sector: w.sector,
        industry: w.industry,
        exchange: w.exchange,
        exch_disp: w.exch_disp,
    }
}

/// The wire entry that a search match is written back as.
pub open spec fn symbol_to_wire(s: Symbol) -> SymbolResult {
    SymbolResult {
        symbol: s.symbol,
        short_name: s.short_name,
        long_name: s.long_name,
        sector: s.sector,
        industry: s.industry,
        score: s.score,
        exchange: s.exchange,
        exch_disp: s.exch_disp,
    }
}

/// The matches for a whole `quotes` list, in the service's order.
pub open spec fn symbols_of(ws: Seq<SymbolResult>) -> Seq<Symbol> {
    ws.map_values(|w: SymbolResult| symbol_of(w))
}

/// Maps each wire entry onto a `Symbol`, in the order the service ranked
/// them, without re-sorting or dropping any.
pub fn symbols_from_response(results: Vec<SymbolResult>) -> (r: Vec<Symbol>)
    ensures
        r@ == symbols_of(results@),
{
    let ghost ws = results@;
    let mut out: Vec<Symbol> = Vec::new();
    for w in it: results.into_iter()
        invariant
            it.seq() == ws,
            out@ == symbols_of(it.seq().take(it.index() as int)),
    {
        proof {
            assert(it.seq().take(it.index() + 1) == it.seq().take(it.index() as int).push(w));
        }
        out.push(Symbol {
            symbol: w.symbol,
            score: w.score,
            short_name: w.short_name,
            long_name: w.long_name,
            sector: w.sector,
            industry: w.industry,
            exchange: w.exchange,
            exch_disp: w.exch_disp,
        });
        proof {
            assert(out@ == symbols_of(it.seq().take(it.index() + 1)));
        }
    }
    proof {
        assert(ws.take(ws.len() as int) == ws);
    }
    out
}

/// Writing a mapped search match back in wire form gives the entry it came
/// from.
pub proof fn lemma_symbol_round_trip(w: SymbolResult)
    ensures
        symbol_to_wire(symbol_of(w)) == w,
{
}

} // verus!
