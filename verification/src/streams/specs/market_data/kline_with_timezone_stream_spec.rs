use vstd::prelude::*;

use super::super::stream_spec::{check_symbol, make_symbol_stream_name, symbol_stream_name, symbol_validation, StreamSpec};
use super::interval::Interval;
use super::timezone_offset::TimezoneOffset;
use crate::config::StreamConfig;
use crate::errors::StreamSpecError;
use crate::types::responses::Kline;

verus! {

/// Subscription to the klines of one trading pair at one interval, with the
/// kline boundaries drawn in a given time zone.
#[derive(Debug)]
pub struct KlineWithTimezoneStreamSpec {
    /// The trading pair, such as "BTCUSDT".
    pub symbol: String,
    /// The interval of the klines.
    pub interval: Interval,
    /// The time zone of the kline boundaries.
    pub timezone_offset: TimezoneOffset,
}

impl KlineWithTimezoneStreamSpec {
    /// The subscription for `symbol` at `interval` in `timezone_offset`.
    pub fn new(symbol: &str, interval: Interval, timezone_offset: TimezoneOffset) -> (r: Self)
        ensures
            r.symbol@ == symbol@,
            r.interval == interval,
            r.timezone_offset == timezone_offset,
    {
        KlineWithTimezoneStreamSpec { symbol: symbol.to_owned(), interval, timezone_offset }
    }

    /// The subscription for `symbol` at `interval` in UTC+8.
    pub fn utc_plus_8(symbol: &str, interval: Interval) -> (r: Self)
        ensures
            r.symbol@ == symbol@,
            r.interval == interval,
            r.timezone_offset == TimezoneOffset::UtcPlus8,
    {
        Self::new(symbol, interval, TimezoneOffset::UtcPlus8)
    }

    /// One-minute klines in UTC+8.
    pub fn one_minute_utc_plus_8(symbol: &str) -> (r: Self)
        ensures
            r.symbol@ == symbol@,
            r.interval == Interval::OneMinute,
            r.timezone_offset == TimezoneOffset::UtcPlus8,
    {
        Self::utc_plus_8(symbol, Interval::OneMinute)
    }

    /// Five-minute klines in UTC+8.
    pub fn five_minutes_utc_plus_8(symbol: &str) -> (r: Self)
        ensures
            r.symbol@ == symbol@,
            r.interval == Interval::FiveMinutes,
            r.timezone_offset == TimezoneOffset::UtcPlus8,
    {
        Self::utc_plus_8(symbol, Interval::FiveMinutes)
    }

    /// Fifteen-minute klines in UTC+8.
    pub fn fifteen_minutes_utc_plus_8(symbol: &str) -> (r: Self)
        ensures
            r.symbol@ == symbol@,
            r.interval == Interval::FifteenMinutes,
            r.timezone_offset == TimezoneOffset::UtcPlus8,
    {
        Self::utc_plus_8(symbol, Interval::FifteenMinutes)
    }

    /// One-hour klines in UTC+8.
    pub fn hourly_utc_plus_8(symbol: &str) -> (r: Self)
        ensures
            r.symbol@ == symbol@,
            r.interval == Interval::OneHour,
            r.timezone_offset == TimezoneOffset::UtcPlus8,
    {
        Self::utc_plus_8(symbol, Interval::OneHour)
    }

    /// One-day klines in UTC+8.
    pub fn daily_utc_plus_8(symbol: &str) -> (r: Self)
        ensures
            r.symbol@ == symbol@,
            r.interval == Interval::OneDay,
            r.timezone_offset == TimezoneOffset::UtcPlus8,
    {
        Self::utc_plus_8(symbol, Interval::OneDay)
    }
}

impl StreamSpec for KlineWithTimezoneStreamSpec {
    /// `<symbol>@kline_<interval>@<offset>`, the symbol in lowercase.
    open spec fn name_spec(&self) -> Seq<char> {
        symbol_stream_name(
            self.symbol@,
            "@kline_"@ + self.interval.text() + "@"@ + self.timezone_offset.text(),
        )
    }

    open spec fn validation_spec(&self) -> Result<(), StreamSpecError> {
        symbol_validation(self.symbol@)
    }

    open spec fn buffer_size_spec(&self, config: StreamConfig) -> usize {
        config.kline_buffer_size
    }

    open spec fn authentication_spec(&self) -> bool {
        false
    }

    fn stream_name(&self) -> (r: String) {
        let mut suffix = "@kline_".to_owned();
        suffix.append(self.interval.as_str());
        suffix.append("@");
        suffix.append(self.timezone_offset.as_str());
        make_symbol_stream_name(self.symbol.as_str(), suffix.as_str())
    }

    fn validate(&self) -> (r: Result<(), StreamSpecError>) {
        check_symbol(self.symbol.as_str())
    }

    fn buffer_size(&self, config: &StreamConfig) -> (r: usize) {
        config.kline_buffer_size
    }

    fn requires_authentication(&self) -> (r: bool) {
        false
    }
}

/// The kline inside a kline stream event.
#[derive(Debug, Clone)]
pub struct KlineStreamData {
    /// The trading pair.
    pub symbol: String,
    /// The interval of the kline, such as "1m".
    pub interval: String,
    /// The first trade in the kline.
    pub first_trade_id: u64,
    /// The last trade in the kline.
    pub last_trade_id: u64,
    /// Whether the kline is closed.
    pub is_kline_closed: bool,
    /// Times, prices and volumes of the kline.
    pub kline: Kline,
}

/// An event of a kline stream.
#[derive(Debug, Clone)]
pub struct KlineStreamEvent {
    /// The event type, "kline".
    pub event_type: String,
    /// The time of the event in milliseconds.
    pub event_time: u64,
    /// The trading pair.
    pub symbol: String,
    /// The kline.
    pub kline: KlineStreamData,
}

} // verus!
