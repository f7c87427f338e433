use vstd::prelude::*;

use crate::config::StreamConfig;
use crate::errors::StreamSpecError;
use crate::text::{ascii_lowercase, to_lowercase, unicode_lowercase};
use vstd::utf8::is_ascii_chars;

verus! {

/// A subscription to one Binance WebSocket stream: the name under which it
/// is subscribed, the check of its parameters, the capacity of its event
/// buffer and whether it needs an authenticated connection.
pub trait StreamSpec {
    /// The stream name that `stream_name` returns.
    spec fn name_spec(&self) -> Seq<char>;

    /// What `validate` returns.
    spec fn validation_spec(&self) -> Result<(), StreamSpecError>;

    /// The buffer capacity that `buffer_size` picks from a configuration.
    spec fn buffer_size_spec(&self, config: StreamConfig) -> usize;

    /// Whether the stream needs authentication.
    spec fn authentication_spec(&self) -> bool;

    /// The stream name used in the subscription.
    fn stream_name(&self) -> (r: String)
        ensures
            r@ == self.name_spec(),
    ;

    /// Checks the parameters of the subscription.
    fn validate(&self) -> (r: Result<(), StreamSpecError>)
        ensures
            r == self.validation_spec(),
    ;

    /// The capacity of the event buffer for this stream.
    fn buffer_size(&self, config: &StreamConfig) -> (r: usize)
        ensures
            r == self.buffer_size_spec(*config),
    ;

    /// Whether the stream needs an authenticated connection.
    fn requires_authentication(&self) -> (r: bool)
        ensures
            r == self.authentication_spec(),
    ;
}

/// A symbol in lowercase: with each ASCII capital replaced by its small
/// letter where the symbol is ASCII (as the exchange's symbols are), and by
/// the Unicode lowercase mapping otherwise.
pub open spec fn lowercase_symbol(symbol: Seq<char>) -> Seq<char> {
    if is_ascii_chars(symbol) {
        ascii_lowercase(symbol)
    } else {
        unicode_lowercase(symbol)
    }
}

/// The name of a stream on one trading pair: the symbol in lowercase
/// followed by `suffix`.
pub open spec fn symbol_stream_name(symbol: Seq<char>, suffix: Seq<char>) -> Seq<char> {
    lowercase_symbol(symbol) + suffix
}

/// How a stream on one trading pair checks its symbol: it may not be empty.
pub open spec fn symbol_validation(symbol: Seq<char>) -> Result<(), StreamSpecError> {
    if symbol.len() == 0 {
        Err(StreamSpecError::EmptySymbol)
    } else {
        Ok(())
    }
}

pub(crate) fn make_symbol_stream_name(symbol: &str, suffix: &str) -> (r: String)
    ensures
        r@ == symbol_stream_name(symbol@, suffix@),
{
    let mut name = to_lowercase(symbol);
    name.append(suffix);
    name
}

pub(crate) fn check_symbol(symbol: &str) -> (r: Result<(), StreamSpecError>)
    ensures
        r == symbol_validation(symbol@),
{
    if symbol.is_empty() {
        Err(StreamSpecError::EmptySymbol)
    } else {
        Ok(())
    }
}

} // verus!
