use vstd::prelude::*;

verus! {

/// The time zone in which kline boundaries are drawn; Binance offers UTC+8.
#[derive(Debug, Clone, Copy, PartialEq, Eq, Structural)]
pub enum TimezoneOffset {
    UtcPlus8,
}

impl TimezoneOffset {
    pub open spec fn text(&self) -> Seq<char> {
        match self {
            TimezoneOffset::UtcPlus8 => "+08:00"@,
        }
    }

    /// The offset as it appears in stream names.
    pub fn as_str(&self) -> (r: &'static str)
        ensures
            r@ == self.text(),
    {
        match self {
            TimezoneOffset::UtcPlus8 => "+08:00",
        }
    }
}

} // verus!
