use vstd::prelude::*;

verus! {

/// How often a depth stream pushes updates.
#[derive(Debug, Clone, Copy, PartialEq, Eq, Structural)]
pub enum UpdateSpeed {
    /// Every 1000 ms.
    Standard,
    /// Every 100 ms.
    Fast100ms,
}

impl UpdateSpeed {
    pub open spec fn text(&self) -> Seq<char> {
        match self {
            UpdateSpeed::Standard => "1000ms"@,
            UpdateSpeed::Fast100ms => "100ms"@,
        }
    }

    /// The update period as text.
    pub fn as_str(&self) -> (r: &'static str)
        ensures
            r@ == self.text(),
    {
        match self {
            UpdateSpeed::Standard => "1000ms",
            UpdateSpeed::Fast100ms => "100ms",
        }
    }
}

} // verus!
