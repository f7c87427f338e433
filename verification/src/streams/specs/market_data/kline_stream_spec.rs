use vstd::prelude::*;

use super::super::stream_spec::{check_symbol, make_symbol_stream_name, symbol_stream_name, symbol_validation, StreamSpec};
use super::interval::Interval;
use crate::config::StreamConfig;
use crate::errors::StreamSpecError;

verus! {

/// Subscription to the klines (candlesticks) of one trading pair at one interval.
#[derive(Debug)]
pub struct KlineStreamSpec {
    /// The trading pair, such as "BTCUSDT".
    pub symbol: String,
    /// The interval of the klines.
    pub interval: Interval,
}

impl KlineStreamSpec {
    /// The subscription for `symbol` at `interval`.
    pub fn new(symbol: &str, interval: Interval) -> (r: Self)
        ensures
            r.symbol@ == symbol@,
            r.interval == interval,
    {
        KlineStreamSpec { symbol: symbol.to_owned(), interval }
    }

    /// One-second klines.
    pub fn one_second(symbol: &str) -> (r: Self)
        ensures
            r.symbol@ == symbol@,
            r.interval == Interval::OneSecond,
    {
        Self::new(symbol, Interval::OneSecond)
    }

    /// One-minute klines.
    pub fn one_minute(symbol: &str) -> (r: Self)
        ensures
            r.symbol@ == symbol@,
            r.interval == Interval::OneMinute,
    {
        Self::new(symbol, Interval::OneMinute)
    }

    /// Three-minute klines.
    pub fn three_minutes(symbol: &str) -> (r: Self)
        ensures
            r.symbol@ == symbol@,
            r.interval == Interval::ThreeMinutes,
    {
        Self::new(symbol, Interval::ThreeMinutes)
    }

    /// Five-minute klines.
    pub fn five_minutes(symbol: &str) -> (r: Self)
        ensures
            r.symbol@ == symbol@,
            r.interval == Interval::FiveMinutes,
    {
        Self::new(symbol, Interval::FiveMinutes)
    }

    /// Fifteen-minute klines.
    pub fn fifteen_minutes(symbol: &str) -> (r: Self)
        ensures
            r.symbol@ == symbol@,
            r.interval == Interval::FifteenMinutes,
    {
        Self::new(symbol, Interval::FifteenMinutes)
    }

    /// Thirty-minute klines.
    pub fn thirty_minutes(symbol: &str) -> (r: Self)
        ensures
            r.symbol@ == symbol@,
            r.interval == Interval::ThirtyMinutes,
    {
        Self::new(symbol, Interval::ThirtyMinutes)
    }

    /// One-hour klines.
    pub fn hourly(symbol: &str) -> (r: Self)
        ensures
            r.symbol@ == symbol@,
            r.interval == Interval::OneHour,
    {
        Self::new(symbol, Interval::OneHour)
    }

    /// Two-hour klines.
    pub fn two_hourly(symbol: &str) -> (r: Self)
        ensures
            r.symbol@ == symbol@,
            r.interval == Interval::TwoHours,
    {
        Self::new(symbol, Interval::TwoHours)
    }

    /// Four-hour klines.
    pub fn four_hourly(symbol: &str) -> (r: Self)
        ensures
            r.symbol@ == symbol@,
            r.interval == Interval::FourHours,
    {
        Self::new(symbol, Interval::FourHours)
    }

    /// Six-hour klines.
    pub fn six_hourly(symbol: &str) -> (r: Self)
        ensures
            r.symbol@ == symbol@,
            r.interval == Interval::SixHours,
    {
        Self::new(symbol, Interval::SixHours)
    }

    /// Eight-hour klines.
    pub fn eight_hourly(symbol: &str) -> (r: Self)
        ensures
            r.symbol@ == symbol@,
            r.interval == Interval::EightHours,
    {
        Self::new(symbol, Interval::EightHours)
    }

    /// Twelve-hour klines.
    pub fn twelve_hourly(symbol: &str) -> (r: Self)
        ensures
            r.symbol@ == symbol@,
            r.interval == Interval::TwelveHours,
    {
        Self::new(symbol, Interval::TwelveHours)
    }

    /// One-day klines.
    pub fn daily(symbol: &str) -> (r: Self)
        ensures
            r.symbol@ == symbol@,
            r.interval == Interval::OneDay,
    {
        Self::new(symbol, Interval::OneDay)
    }

    /// Three-day klines.
    pub fn three_days(symbol: &str) -> (r: Self)
        ensures
            r.symbol@ == symbol@,
            r.interval == Interval::ThreeDays,
    {
        Self::new(symbol, Interval::ThreeDays)
    }

    /// One-week klines.
    pub fn weekly(symbol: &str) -> (r: Self)
        ensures
            r.symbol@ == symbol@,
            r.interval == Interval::OneWeek,
    {
        Self::new(symbol, Interval::OneWeek)
    }

    /// One-month klines.
    pub fn monthly(symbol: &str) -> (r: Self)
        ensures
            r.symbol@ == symbol@,
            r.interval == Interval::OneMonth,
    {
        Self::new(symbol, Interval::OneMonth)
    }
}

impl StreamSpec for KlineStreamSpec {
    /// `<symbol>@kline_<interval>`, the symbol in lowercase.
    open spec fn name_spec(&self) -> Seq<char> {
        symbol_stream_name(self.symbol@, "@kline_"@ + self.interval.text())
    }

    open spec fn validation_spec(&self) -> Result<(), StreamSpecError> {
        symbol_validation(self.symbol@)
    }

    open spec fn buffer_size_spec(&self, config: StreamConfig) -> usize {
        config.kline_buffer_size
    }

    open spec fn authentication_spec(&self) -> bool {
        false
    }

    fn stream_name(&self) -> (r: String) {
        let mut suffix = "@kline_".to_owned();
        suffix.append(self.interval.as_str());
        make_symbol_stream_name(self.symbol.as_str(), suffix.as_str())
    }

    fn validate(&self) -> (r: Result<(), StreamSpecError>) {
        check_symbol(self.symbol.as_str())
    }

    fn buffer_size(&self, config: &StreamConfig) -> (r: usize) {
        config.kline_buffer_size
    }

    fn requires_authentication(&self) -> (r: bool) {
        false
    }
}

} // verus!
