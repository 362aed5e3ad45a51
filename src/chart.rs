use vstd::prelude::*;

use crate::error::ApiError;
use crate::number::Number;

verus! {

/// One series of samples, aligned index for index with the chart's
/// timestamps; `None` marks a sample the service did not report.
/// The wire form (`indicators.quote[k]`) has the same fields and names.
#[derive(Debug, Clone)]
pub struct QuoteIndicator {
    pub volume: Vec<Option<u64>>,
    pub low: Vec<Option<Number>>,
    pub high: Vec<Option<Number>>,
    pub open: Vec<Option<Number>>,
    pub close: Vec<Option<Number>>,
}

/// A price history: unix timestamps in seconds and the series sampled at them.
#[derive(Debug, Clone)]
pub struct Chart {
    pub timestamps: Vec<u64>,
    pub indicators: Vec<QuoteIndicator>,
}

/// One entry of `chart.result` as the chart endpoint sends it; `indicators`
/// holds the list found under `indicators.quote`.
#[derive(Debug)]
pub struct ChartResult {
    pub timestamp: Vec<u64>,
    pub indicators: Vec<QuoteIndicator>,
}

/// The `chart` object of the chart endpoint's response.
#[derive(Debug)]
pub struct ChartEnvelope {
    pub result: Vec<ChartResult>,
    pub error: Option<String>,
}

/// The chart for one wire entry: timestamps and series carried over as they are.
pub open spec fn chart_of(w: ChartResult) -> Chart {
    Chart { timestamps: w.timestamp, indicators: w.indicators }
}

/// The wire entry that a chart is written back as.
pub open spec fn chart_to_wire(c: Chart) -> ChartResult {
    ChartResult { timestamp: c.timestamps, indicators: c.indicators }
}

/// What the chart endpoint's envelope amounts to: the error the service
/// reported if there is one, even beside data; else the first result, as a
/// single-symbol request yields exactly that one; with no result at all, a
/// cardinality violation.
pub open spec fn chart_outcome(env: ChartEnvelope) -> Result<Chart, ApiError> {
    match env.error {
        Some(m) => Err(ApiError::Remote(m)),
        None => if env.result.len() == 0 {
            Err(ApiError::Cardinality { found: 0 })
        } else {
            Ok(chart_of(env.result[0]))
        },
    }
}

/// Narrows the chart envelope to the history of the one requested symbol,
/// as `chart_outcome` describes. An empty result list is an error, never
/// an out-of-bounds access.
pub fn chart_from_response(env: ChartEnvelope) -> (r: Result<Chart, ApiError>)
    ensures
        r == chart_outcome(env),
{
    let ChartEnvelope { result, error } = env;
    match error {
        Some(m) => Err(ApiError::Remote(m)),
        None => {
            if result.len() == 0 {
                Err(ApiError::Cardinality { found: 0 })
            } else {
                let mut result = result;
                let first = result.remove(0);
                Ok(Chart { timestamps: first.timestamp, indicators: first.indicators })
            }
        },
    }
}

/// Writing a mapped chart back in wire form gives the entry it came from.
pub proof fn lemma_chart_round_trip(w: ChartResult)
    ensures
        chart_to_wire(chart_of(w)) == w,
{
}

} // verus!
