use vstd::prelude::*;

use super::super::stream_spec::{check_symbol, make_symbol_stream_name, symbol_stream_name, StreamSpec};
use super::update_speed::UpdateSpeed;
use crate::config::StreamConfig;
use crate::errors::StreamSpecError;
use crate::text::{decimal_text, u8_text};

verus! {

/// Subscription to the top levels of the order book of one trading pair.
#[derive(Debug)]
pub struct PartialBookDepthStreamSpec {
    /// The trading pair, such as "BTCUSDT".
    pub symbol: String,
    /// The number of price levels on each side: 5, 10 or 20.
    pub levels: u8,
    /// How often updates come.
    pub update_speed: UpdateSpeed,
}

impl PartialBookDepthStreamSpec {
    /// The subscription for `symbol` and `levels` with an update every 1000 ms.
    pub fn new(symbol: &str, levels: u8) -> (r: Self)
        ensures
            r.symbol@ == symbol@,
            r.levels == levels,
            r.update_speed == UpdateSpeed::Standard,
    {
        PartialBookDepthStreamSpec { symbol: symbol.to_owned(), levels, update_speed: UpdateSpeed::Standard }
    }

    /// The subscription for `symbol` and `levels` with an update every 100 ms.
    pub fn with_fast_updates(symbol: &str, levels: u8) -> (r: Self)
        ensures
            r.symbol@ == symbol@,
            r.levels == levels,
            r.update_speed == UpdateSpeed::Fast100ms,
    {
        PartialBookDepthStreamSpec { symbol: symbol.to_owned(), levels, update_speed: UpdateSpeed::Fast100ms }
    }

    /// Five levels, updated every 1000 ms.
    pub fn levels_5(symbol: &str) -> (r: Self)
        ensures
            r.symbol@ == symbol@,
            r.levels == 5,
            r.update_speed == UpdateSpeed::Standard,
    {
        Self::new(symbol, 5)
    }

    /// Ten levels, updated every 1000 ms.
    pub fn levels_10(symbol: &str) -> (r: Self)
        ensures
            r.symbol@ == symbol@,
            r.levels == 10,
            r.update_speed == UpdateSpeed::Standard,
    {
        Self::new(symbol, 10)
    }

    /// Twenty levels, updated every 1000 ms.
    pub fn levels_20(symbol: &str) -> (r: Self)
        ensures
            r.symbol@ == symbol@,
            r.levels == 20,
            r.update_speed == UpdateSpeed::Standard,
    {
        Self::new(symbol, 20)
    }

    /// Five levels, updated every 100 ms.
    pub fn levels_5_fast(symbol: &str) -> (r: Self)
        ensures
            r.symbol@ == symbol@,
            r.levels == 5,
            r.update_speed == UpdateSpeed::Fast100ms,
    {
        Self::with_fast_updates(symbol, 5)
    }

    /// Ten levels, updated every 100 ms.
    pub fn levels_10_fast(symbol: &str) -> (r: Self)
        ensures
            r.symbol@ == symbol@,
            r.levels == 10,
            r.update_speed == UpdateSpeed::Fast100ms,
    {
        Self::with_fast_updates(symbol, 10)
    }

    /// Twenty levels, updated every 100 ms.
    pub fn levels_20_fast(symbol: &str) -> (r: Self)
        ensures
            r.symbol@ == symbol@,
            r.levels == 20,
            r.update_speed == UpdateSpeed::Fast100ms,
    {
        Self::with_fast_updates(symbol, 20)
    }
}

impl StreamSpec for PartialBookDepthStreamSpec {
    /// `<symbol>@depth<levels>`, with `@100ms` appended for fast updates.
    open spec fn name_spec(&self) -> Seq<char> {
        match self.update_speed {
            UpdateSpeed::Standard => symbol_stream_name(
                self.symbol@,
                "@depth"@ + decimal_text(self.levels as nat),
            ),
            UpdateSpeed::Fast100ms => symbol_stream_name(
                self.symbol@,
                "@depth"@ + decimal_text(self.levels as nat) + "@100ms"@,
            ),
        }
    }

    /// The symbol may not be empty, and the levels must be 5, 10 or 20.
    open spec fn validation_spec(&self) -> Result<(), StreamSpecError> {
        if self.symbol@.len() == 0 {
            Err(StreamSpecError::EmptySymbol)
        } else if !(self.levels == 5 || self.levels == 10 || self.levels == 20) {
            Err(StreamSpecError::InvalidLevels)
        } else {
            Ok(())
        }
    }

    open spec fn buffer_size_spec(&self, config: StreamConfig) -> usize {
        config.partial_book_depth_buffer_size
    }

    open spec fn authentication_spec(&self) -> bool {
        false
    }

    fn stream_name(&self) -> (r: String) {
        let mut suffix = "@depth".to_owned();
        suffix.append(u8_text(self.levels).as_str());
        match self.update_speed {
            UpdateSpeed::Standard => {},
            UpdateSpeed::Fast100ms => suffix.append("@100ms"),
        }
        make_symbol_stream_name(self.symbol.as_str(), suffix.as_str())
    }

    fn validate(&self) -> (r: Result<(), StreamSpecError>) {
        if let Err(e) = check_symbol(self.symbol.as_str()) {
            return Err(e);
        }
        if !(self.levels == 5 || self.levels == 10 || self.levels == 20) {
            return Err(StreamSpecError::InvalidLevels);
        }
        Ok(())
    }

    fn buffer_size(&self, config: &StreamConfig) -> (r: usize) {
        config.partial_book_depth_buffer_size
    }

    fn requires_authentication(&self) -> (r: bool) {
        false
    }
}

} // verus!
