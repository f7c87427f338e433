use vstd::prelude::*;

verus! {

/// The reason a request specification was refused by its `build`.
///
/// Each variant names the offending parameter the way the Binance API
/// documentation names it; `Range` carries the admitted bounds.
#[derive(Debug, Clone, Copy, PartialEq, Eq)]
pub enum InvalidParameter {
    /// The parameter is present but empty (or only whitespace), or it is
    /// missing where the order type needs it.
    Empty { parameter: &'static str },
    /// None of the parameters named was given, but one is needed.
    Required { parameter: &'static str },
    /// Two parameters that exclude each other were both given.
    MutuallyExclusive { first: &'static str, second: &'static str },
    /// The value lies outside `min..=max`.
    Range { parameter: &'static str, min: i128, max: i128 },
    /// The value breaks a rule that the reason states.
    Invalid { parameter: &'static str, reason: &'static str },
}

/// The reason a stream specification was refused by its `validate`.
#[derive(Debug, Clone, Copy, PartialEq, Eq)]
pub enum StreamSpecError {
    /// The trading pair symbol is the empty string.
    EmptySymbol,
    /// A partial book depth stream asked for other than 5, 10 or 20 levels.
    InvalidLevels,
}

impl StreamSpecError {
    /// The human-readable message of the error.
    pub fn message(&self) -> (r: &'static str)
        ensures
            r@ == self.message_text(),
    {
        match self {
            StreamSpecError::EmptySymbol => "Symbol cannot be empty",
            StreamSpecError::InvalidLevels => "Levels must be 5, 10, or 20",
        }
    }

    pub open spec fn message_text(&self) -> Seq<char> {
        match self {
            StreamSpecError::EmptySymbol => "Symbol cannot be empty"@,
            StreamSpecError::InvalidLevels => "Levels must be 5, 10, or 20"@,
        }
    }
}

} // verus!
