use vstd::prelude::*;

use super::super::stream_spec::{check_symbol, make_symbol_stream_name, symbol_stream_name, symbol_validation, StreamSpec};
use crate::config::StreamConfig;
use crate::errors::StreamSpecError;

verus! {

/// Subscription to the best bid and ask of one trading pair.
#[derive(Debug)]
pub struct BookTickerStreamSpec {
    /// The trading pair, such as "BTCUSDT".
    pub symbol: String,
}

impl BookTickerStreamSpec {
    /// A book ticker subscription for `symbol`.
    pub fn new(symbol: &str) -> (r: Self)
        ensures
            r.symbol@ == symbol@,
    {
        BookTickerStreamSpec { symbol: symbol.to_owned() }
    }
}

impl StreamSpec for BookTickerStreamSpec {
    /// `<symbol>@bookTicker`, the symbol in lowercase.
    open spec fn name_spec(&self) -> Seq<char> {
        symbol_stream_name(self.symbol@, "@bookTicker"@)
    }

    open spec fn validation_spec(&self) -> Result<(), StreamSpecError> {
        symbol_validation(self.symbol@)
    }

    open spec fn buffer_size_spec(&self, config: StreamConfig) -> usize {
        config.book_ticker_buffer_size
    }

    open spec fn authentication_spec(&self) -> bool {
        false
    }

    fn stream_name(&self) -> (r: String) {
        make_symbol_stream_name(self.symbol.as_str(), "@bookTicker")
    }

    fn validate(&self) -> (r: Result<(), StreamSpecError>) {
        check_symbol(self.symbol.as_str())
    }

    fn buffer_size(&self, config: &StreamConfig) -> (r: usize) {
        config.book_ticker_buffer_size
    }

    fn requires_authentication(&self) -> (r: bool) {
        false
    }
}

} // verus!
