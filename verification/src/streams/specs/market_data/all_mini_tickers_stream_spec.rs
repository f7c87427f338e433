use vstd::prelude::*;

use super::super::stream_spec::StreamSpec;
use crate::config::StreamConfig;
use crate::errors::StreamSpecError;

verus! {

/// Subscription to the mini tickers of all trading pairs; only the tickers
/// that changed are in each event.
#[derive(Debug)]
pub struct AllMiniTickersStreamSpec;

impl AllMiniTickersStreamSpec {
    /// The all-market mini ticker subscription.
    pub fn new() -> (r: Self)
        ensures
            r == AllMiniTickersStreamSpec,
    {
        AllMiniTickersStreamSpec
    }
}

impl StreamSpec for AllMiniTickersStreamSpec {
    open spec fn name_spec(&self) -> Seq<char> {
        "!miniTicker@arr"@
    }

    open spec fn validation_spec(&self) -> Result<(), StreamSpecError> {
        Ok(())
    }

    open spec fn buffer_size_spec(&self, config: StreamConfig) -> usize {
        config.all_mini_tickers_buffer_size
    }

    open spec fn authentication_spec(&self) -> bool {
        false
    }

    fn stream_name(&self) -> (r: String) {
        "!miniTicker@arr".to_owned()
    }

    fn validate(&self) -> (r: Result<(), StreamSpecError>) {
        Ok(())
    }

    fn buffer_size(&self, config: &StreamConfig) -> (r: usize) {
        config.all_mini_tickers_buffer_size
    }

    fn requires_authentication(&self) -> (r: bool) {
        false
    }
}

} // verus!
