use vstd::prelude::*;

use super::super::stream_spec::{check_symbol, make_symbol_stream_name, symbol_stream_name, symbol_validation, StreamSpec};
use super::window_size::WindowSize;
use crate::config::StreamConfig;
use crate::errors::StreamSpecError;

verus! {

/// Subscription to the rolling window ticker statistics of one trading pair
/// over one window.
#[derive(Debug)]
pub struct RollingWindowTickerStreamSpec {
    /// The trading pair, such as "BTCUSDT".
    pub symbol: String,
    /// The window of the statistics.
    pub window: WindowSize,
}

impl RollingWindowTickerStreamSpec {
    /// The subscription for `symbol` over `window`.
    pub fn new(symbol: &str, window: WindowSize) -> (r: Self)
        ensures
            r.symbol@ == symbol@,
            r.window == window,
    {
        RollingWindowTickerStreamSpec { symbol: symbol.to_owned(), window }
    }

    /// The subscription for `symbol` over a one-hour window.
    pub fn hourly(symbol: &str) -> (r: Self)
        ensures
            r.symbol@ == symbol@,
            r.window == WindowSize::OneHour,
    {
        Self::new(symbol, WindowSize::OneHour)
    }

    /// The subscription for `symbol` over a four-hour window.
    pub fn four_hourly(symbol: &str) -> (r: Self)
        ensures
            r.symbol@ == symbol@,
            r.window == WindowSize::FourHours,
    {
        Self::new(symbol, WindowSize::FourHours)
    }

    /// The subscription for `symbol` over a one-day window.
    pub fn daily(symbol: &str) -> (r: Self)
        ensures
            r.symbol@ == symbol@,
            r.window == WindowSize::OneDay,
    {
        Self::new(symbol, WindowSize::OneDay)
    }
}

impl StreamSpec for RollingWindowTickerStreamSpec {
    /// `<symbol>@ticker_<window>`, the symbol in lowercase.
    open spec fn name_spec(&self) -> Seq<char> {
        symbol_stream_name(self.symbol@, "@ticker_"@ + self.window.text())
    }

    open spec fn validation_spec(&self) -> Result<(), StreamSpecError> {
        symbol_validation(self.symbol@)
    }

    open spec fn buffer_size_spec(&self, config: StreamConfig) -> usize {
        config.rolling_window_ticker_buffer_size
    }

    open spec fn authentication_spec(&self) -> bool {
        false
    }

    fn stream_name(&self) -> (r: String) {
        let mut suffix = "@ticker_".to_owned();
        suffix.append(self.window.as_str());
        make_symbol_stream_name(self.symbol.as_str(), suffix.as_str())
    }

    fn validate(&self) -> (r: Result<(), StreamSpecError>) {
        check_symbol(self.symbol.as_str())
    }

    fn buffer_size(&self, config: &StreamConfig) -> (r: usize) {
        config.rolling_window_ticker_buffer_size
    }

    fn requires_authentication(&self) -> (r: bool) {
        false
    }
}

} // verus!
