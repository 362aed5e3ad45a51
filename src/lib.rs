//! Typed client logic for a stock-market data service: request URLs for the
//! quote, search and chart endpoints, the wire shape of each response, and
//! the mapping from that wire shape onto the library's domain values.
//!
//! The HTTP transport and JSON decoding sit outside this crate's verified
//! core; everything that decides what a response means is here.

pub mod chart;
pub mod endpoint;
pub mod error;
pub mod number;
pub mod quote;
pub mod symbol;

pub use chart::{chart_from_response, Chart, ChartEnvelope, ChartResult, QuoteIndicator};
pub use endpoint::{history_url, quote_url, search_url, DEFAULT_BASE_URL};
pub use error::{check_status, ApiError};
pub use number::Number;
pub use quote::{quotes_from_response, single_quote, Quote, QuoteResult};
pub use symbol::{symbols_from_response, Symbol, SymbolResult};
