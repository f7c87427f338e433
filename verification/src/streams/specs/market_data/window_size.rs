use vstd::prelude::*;

verus! {

/// The window of rolling ticker statistics.
#[derive(Debug, Clone, Copy, PartialEq, Eq, Structural)]
pub enum WindowSize {
    OneHour,
    FourHours,
    OneDay,
}

impl WindowSize {
    pub open spec fn text(&self) -> Seq<char> {
        match self {
            WindowSize::OneHour => "1h"@,
            WindowSize::FourHours => "4h"@,
            WindowSize::OneDay => "1d"@,
        }
    }

    /// The window as it appears in stream names.
    pub fn as_str(&self) -> (r: &'static str)
        ensures
            r@ == self.text(),
    {
        match self {
            WindowSize::OneHour => "1h",
            WindowSize::FourHours => "4h",
            WindowSize::OneDay => "1d",
        }
    }
}

} // verus!
