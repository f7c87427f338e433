use vstd::prelude::*;

use super::super::stream_spec::{check_symbol, make_symbol_stream_name, symbol_stream_name, symbol_validation, StreamSpec};
use super::update_speed::UpdateSpeed;
use crate::config::StreamConfig;
use crate::errors::StreamSpecError;

verus! {

/// Subscription to the order book changes of one trading pair.
#[derive(Debug)]
pub struct DiffDepthStreamSpec {
    /// The trading pair, such as "BTCUSDT".
    pub symbol: String,
    /// How often updates come.
    pub update_speed: UpdateSpeed,
}

impl DiffDepthStreamSpec {
    /// The subscription for `symbol` with an update every 1000 ms.
    pub fn new(symbol: &str) -> (r: Self)
        ensures
            r.symbol@ == symbol@,
            r.update_speed == UpdateSpeed::Standard,
    {
        DiffDepthStreamSpec { symbol: symbol.to_owned(), update_speed: UpdateSpeed::Standard }
    }

    /// The subscription for `symbol` with an update every 100 ms.
    pub fn with_fast_updates(symbol: &str) -> (r: Self)
        ensures
            r.symbol@ == symbol@,
            r.update_speed == UpdateSpeed::Fast100ms,
    {
        DiffDepthStreamSpec { symbol: symbol.to_owned(), update_speed: UpdateSpeed::Fast100ms }
    }

    /// The same as `new`.
    pub fn standard(symbol: &str) -> (r: Self)
        ensures
            r.symbol@ == symbol@,
            r.update_speed == UpdateSpeed::Standard,
    {
        Self::new(symbol)
    }

    /// The same as `with_fast_updates`.
    pub fn fast(symbol: &str) -> (r: Self)
        ensures
            r.symbol@ == symbol@,
            r.update_speed == UpdateSpeed::Fast100ms,
    {
        Self::with_fast_updates(symbol)
    }
}

impl StreamSpec for DiffDepthStreamSpec {
    /// `<symbol>@depth`, or `<symbol>@depth@100ms` for fast updates.
    open spec fn name_spec(&self) -> Seq<char> {
        match self.update_speed {
            UpdateSpeed::Standard => symbol_stream_name(self.symbol@, "@depth"@),
            UpdateSpeed::Fast100ms => symbol_stream_name(self.symbol@, "@depth@100ms"@),
        }
    }

    open spec fn validation_spec(&self) -> Result<(), StreamSpecError> {
        symbol_validation(self.symbol@)
    }

    open spec fn buffer_size_spec(&self, config: StreamConfig) -> usize {
        config.diff_depth_buffer_size
    }

    open spec fn authentication_spec(&self) -> bool {
        false
    }

    fn stream_name(&self) -> (r: String) {
        match self.update_speed {
            UpdateSpeed::Standard => make_symbol_stream_name(self.symbol.as_str(), "@depth"),
            UpdateSpeed::Fast100ms => make_symbol_stream_name(self.symbol.as_str(), "@depth@100ms"),
        }
    }

    fn validate(&self) -> (r: Result<(), StreamSpecError>) {
        check_symbol(self.symbol.as_str())
    }

    fn buffer_size(&self, config: &StreamConfig) -> (r: usize) {
        config.diff_depth_buffer_size
    }

    fn requires_authentication(&self) -> (r: bool) {
        false
    }
}

} // verus!
