use vstd::prelude::*;

verus! {

/// The interval of a kline/candlestick: s = seconds, m = minutes, h = hours,
/// d = days, w = weeks, M = months.
#[derive(Debug, Clone, Copy, PartialEq, Eq, Structural)]
pub enum Interval {
    OneSecond,
    OneMinute,
    ThreeMinutes,
    FiveMinutes,
    FifteenMinutes,
    ThirtyMinutes,
    OneHour,
    TwoHours,
    FourHours,
    SixHours,
    EightHours,
    TwelveHours,
    OneDay,
    ThreeDays,
    OneWeek,
    OneMonth,
}

impl Interval {
    /// The text of the interval in stream names and API calls.
    pub open spec fn text(&self) -> Seq<char> {
        match self {
            Interval::OneSecond => "1s"@,
            Interval::OneMinute => "1m"@,
            Interval::ThreeMinutes => "3m"@,
            Interval::FiveMinutes => "5m"@,
            Interval::FifteenMinutes => "15m"@,
            Interval::ThirtyMinutes => "30m"@,
            Interval::OneHour => "1h"@,
            Interval::TwoHours => "2h"@,
            Interval::FourHours => "4h"@,
            Interval::SixHours => "6h"@,
            Interval::EightHours => "8h"@,
            Interval::TwelveHours => "12h"@,
            Interval::OneDay => "1d"@,
            Interval::ThreeDays => "3d"@,
            Interval::OneWeek => "1w"@,
            Interval::OneMonth => "1M"@,
        }
    }

    /// The text of the interval in stream names and API calls.
    pub fn as_str(&self) -> (r: &'static str)
        ensures
            r@ == self.text(),
    {
        match self {
            Interval::OneSecond => "1s",
            Interval::OneMinute => "1m",
            Interval::ThreeMinutes => "3m",
            Interval::FiveMinutes => "5m",
            Interval::FifteenMinutes => "15m",
            Interval::ThirtyMinutes => "30m",
            Interval::OneHour => "1h",
            Interval::TwoHours => "2h",
            Interval::FourHours => "4h",
            Interval::SixHours => "6h",
            Interval::EightHours => "8h",
            Interval::TwelveHours => "12h",
            Interval::OneDay => "1d",
            Interval::ThreeDays => "3d",
            Interval::OneWeek => "1w",
            Interval::OneMonth => "1M",
        }
    }
}

} // verus!
