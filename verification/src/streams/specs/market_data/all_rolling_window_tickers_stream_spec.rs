use vstd::prelude::*;

use super::super::stream_spec::StreamSpec;
use super::window_size::WindowSize;
use crate::config::StreamConfig;
use crate::errors::StreamSpecError;

verus! {

/// Subscription to the rolling window ticker statistics of all trading
/// pairs over one window; only the tickers that changed are in each event.
#[derive(Debug)]
pub struct AllRollingWindowTickersStreamSpec {
    /// The window of the statistics.
    pub window: WindowSize,
}

impl AllRollingWindowTickersStreamSpec {
    /// The subscription over `window`.
    pub fn new(window: WindowSize) -> (r: Self)
        ensures
            r.window == window,
    {
        AllRollingWindowTickersStreamSpec { window }
    }

    /// The subscription over a one-hour window.
    pub fn hourly() -> (r: Self)
        ensures
            r.window == WindowSize::OneHour,
    {
        Self::new(WindowSize::OneHour)
    }

    /// The subscription over a four-hour window.
    pub fn four_hourly() -> (r: Self)
        ensures
            r.window == WindowSize::FourHours,
    {
        Self::new(WindowSize::FourHours)
    }

    /// The subscription over a one-day window.
    pub fn daily() -> (r: Self)
        ensures
            r.window == WindowSize::OneDay,
    {
        Self::new(WindowSize::OneDay)
    }
}

impl StreamSpec for AllRollingWindowTickersStreamSpec {
    /// `!ticker_<window>@arr`.
    open spec fn name_spec(&self) -> Seq<char> {
        "!ticker_"@ + self.window.text() + "@arr"@
    }

    open spec fn validation_spec(&self) -> Result<(), StreamSpecError> {
        Ok(())
    }

    open spec fn buffer_size_spec(&self, config: StreamConfig) -> usize {
        config.all_rolling_window_tickers_buffer_size
    }

    open spec fn authentication_spec(&self) -> bool {
        false
    }

    fn stream_name(&self) -> (r: String) {
        let mut name = "!ticker_".to_owned();
        name.append(self.window.as_str());
        name.append("@arr");
        name
    }

    fn validate(&self) -> (r: Result<(), StreamSpecError>) {
        Ok(())
    }

    fn buffer_size(&self, config: &StreamConfig) -> (r: usize) {
        config.all_rolling_window_tickers_buffer_size
    }

    fn requires_authentication(&self) -> (r: bool) {
        false
    }
}

} // verus!
