use vstd::prelude::*;

use super::common::{
    check_kline_interval, check_time_zone, is_kline_interval, optional_time_zone_validation,
    Unvalidated, Validated,
};
use crate::errors::InvalidParameter;
use crate::text::{blank, is_blank};

verus! {

/// The parameters of a query for the klines (candlesticks) of one trading
/// pair.
#[derive(Debug, Clone)]
pub struct KlinesSpec<S = Unvalidated> {
    /// The trading pair, such as "BTCUSDT".
    pub symbol: String,
    /// The kline interval, such as `1m`, `1h` or `1M`.
    pub interval: String,
    /// The start of the time range in milliseconds.
    pub start_time: Option<u64>,
    /// The end of the time range in milliseconds.
    pub end_time: Option<u64>,
    /// The time zone of the intervals, as hours or `hours:minutes` (default `0`).
    pub time_zone: Option<String>,
    /// How many klines to return (default 500, at most 1000).
    pub limit: Option<u16>,
    /// Whether `build` has checked the parameters.
    pub state: S,
}

impl<S> KlinesSpec<S> {
    /// `self` and `other` hold the same parameters.
    pub open spec fn same_parameters<T>(&self, other: &KlinesSpec<T>) -> bool {
        &&& self.symbol == other.symbol
        &&& self.interval == other.interval
        &&& self.start_time == other.start_time
        &&& self.end_time == other.end_time
        &&& self.time_zone == other.time_zone
        &&& self.limit == other.limit
    }

    /// The symbol and the interval may not be blank; the interval is one that
    /// `is_kline_interval` knows; the limit is at most 1000; a time range ends
    /// after it starts; and a time zone passes `time_zone_validation`.
    pub open spec fn validation(&self) -> Result<(), InvalidParameter> {
        if blank(self.symbol@) {
            Err(InvalidParameter::Empty { parameter: "symbol" })
        } else if blank(self.interval@) {
            Err(InvalidParameter::Empty { parameter: "interval" })
        } else if !is_kline_interval(self.interval@) {
            Err(
                InvalidParameter::Invalid {
                    parameter: "interval",
                    reason: "must be one of: 1s, 1m, 3m, 5m, 15m, 30m, 1h, 2h, 4h, 6h, 8h, 12h, 1d, 3d, 1w, 1M",
                },
            )
        } else if self.limit matches Some(limit) && limit > 1000 {
            Err(InvalidParameter::Range { parameter: "limit", min: 1, max: 1000 })
        } else if self.start_time matches Some(start) && self.end_time matches Some(end) && end <= start {
            Err(
                InvalidParameter::Invalid {
                    parameter: "start_time/end_time",
                    reason: "end_time must be greater than start_time",
                },
            )
        } else {
            optional_time_zone_validation(self.time_zone)
        }
    }
}

impl KlinesSpec<Unvalidated> {
    /// The query for the klines of `symbol` at `interval`, with no other parameter.
    pub fn new(symbol: &str, interval: &str) -> (r: Self)
        ensures
            r.symbol@ == symbol@,
            r.interval@ == interval@,
            r.start_time is None,
            r.end_time is None,
            r.time_zone is None,
            r.limit is None,
    {
        KlinesSpec {
            symbol: symbol.to_owned(),
            interval: interval.to_owned(),
            start_time: None,
            end_time: None,
            time_zone: None,
            limit: None,
            state: Unvalidated,
        }
    }

    /// Sets the start of the time range.
    pub fn with_start_time(self, start_time: u64) -> (r: Self)
        ensures
            r == (KlinesSpec { start_time: Some(start_time), ..self }),
    {
        KlinesSpec { start_time: Some(start_time), ..self }
    }

    /// Sets the end of the time range.
    pub fn with_end_time(self, end_time: u64) -> (r: Self)
        ensures
            r == (KlinesSpec { end_time: Some(end_time), ..self }),
    {
        KlinesSpec { end_time: Some(end_time), ..self }
    }

    /// Sets the time zone.
    pub fn with_time_zone(self, time_zone: &str) -> (r: Self)
        ensures
            r == (KlinesSpec { time_zone: r.time_zone, ..self }),
            r.time_zone matches Some(v) && v@ == time_zone@,
    {
        KlinesSpec { time_zone: Some(time_zone.to_owned()), ..self }
    }

    /// Sets how many klines to return.
    pub fn with_limit(self, limit: u16) -> (r: Self)
        ensures
            r == (KlinesSpec { limit: Some(limit), ..self }),
    {
        KlinesSpec { limit: Some(limit), ..self }
    }

    /// Checks the parameters as `validation` states; on success the
    /// same parameters come back as a validated specification.
    pub fn build(self) -> (r: Result<KlinesSpec<Validated>, InvalidParameter>)
        ensures
            match self.validation() {
                Ok(_) => r matches Ok(v) && self.same_parameters(&v),
                Err(e) => r == Err::<KlinesSpec<Validated>, InvalidParameter>(e),
            },
            r matches Ok(v) ==> v.validation() is Ok,
    {
        if let Err(e) = self.validate() {
            return Err(e);
        }
        Ok(KlinesSpec {
            symbol: self.symbol,
            interval: self.interval,
            start_time: self.start_time,
            end_time: self.end_time,
            time_zone: self.time_zone,
            limit: self.limit,
            state: Validated,
        })
    }

    fn validate(&self) -> (r: Result<(), InvalidParameter>)
        ensures
            r == self.validation(),
    {
        if is_blank(self.symbol.as_str()) {
            return Err(InvalidParameter::Empty { parameter: "symbol" });
        }
        if is_blank(self.interval.as_str()) {
            return Err(InvalidParameter::Empty { parameter: "interval" });
        }
        if !check_kline_interval(self.interval.as_str()) {
            return Err(
                InvalidParameter::Invalid {
                    parameter: "interval",
                    reason: "must be one of: 1s, 1m, 3m, 5m, 15m, 30m, 1h, 2h, 4h, 6h, 8h, 12h, 1d, 3d, 1w, 1M",
                },
            );
        }
        if let Some(limit) = self.limit {
            if limit > 1000 {
                return Err(InvalidParameter::Range { parameter: "limit", min: 1, max: 1000 });
            }
        }
        if let (Some(start), Some(end)) = (self.start_time, self.end_time) {
            if end <= start {
                return Err(
                    InvalidParameter::Invalid {
                        parameter: "start_time/end_time",
                        reason: "end_time must be greater than start_time",
                    },
                );
            }
        }
        if let Some(tz) = &self.time_zone {
            return check_time_zone(tz.as_str());
        }
        Ok(())
    }
}

} // verus!
