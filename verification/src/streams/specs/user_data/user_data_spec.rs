use vstd::prelude::*;

use super::super::stream_spec::StreamSpec;
use crate::config::StreamConfig;
use crate::errors::StreamSpecError;

verus! {

/// Subscription to the events of the authenticated account: execution
/// reports, account position and balance updates.
#[derive(Debug, Clone)]
pub struct UserDataStreamSpec;

impl UserDataStreamSpec {
    /// The user data subscription.
    pub fn new() -> (r: Self)
        ensures
            r == UserDataStreamSpec,
    {
        UserDataStreamSpec
    }
}

impl Default for UserDataStreamSpec {
    fn default() -> (r: Self)
        ensures
            r == UserDataStreamSpec,
    {
        Self::new()
    }
}

impl StreamSpec for UserDataStreamSpec {
    open spec fn name_spec(&self) -> Seq<char> {
        "userData"@
    }

    open spec fn validation_spec(&self) -> Result<(), StreamSpecError> {
        Ok(())
    }

    open spec fn buffer_size_spec(&self, config: StreamConfig) -> usize {
        config.user_data_buffer_size
    }

    /// The user data stream is the one that needs authentication.
    open spec fn authentication_spec(&self) -> bool {
        true
    }

    fn stream_name(&self) -> (r: String) {
        "userData".to_owned()
    }

    fn validate(&self) -> (r: Result<(), StreamSpecError>) {
        Ok(())
    }

    fn buffer_size(&self, config: &StreamConfig) -> (r: usize) {
        config.user_data_buffer_size
    }

    fn requires_authentication(&self) -> (r: bool) {
        true
    }
}

} // verus!
