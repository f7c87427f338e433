use vstd::prelude::*;

use super::common::{Unvalidated, Validated};
use crate::errors::InvalidParameter;
use crate::text::{blank, is_blank};

verus! {

/// The parameters of a query for the trades of the account on one trading pair.
#[derive(Debug, Clone)]
pub struct MyTradesSpec<S = Unvalidated> {
    /// The trading pair, such as "BTCUSDT".
    pub symbol: String,
    /// Only the trades of this order.
    pub order_id: Option<u64>,
    /// The start of the time range in milliseconds.
    pub start_time: Option<u64>,
    /// The end of the time range in milliseconds.
    pub end_time: Option<u64>,
    /// The trade ID to start from.
    pub from_id: Option<u64>,
    /// How many trades to return (default 500, at most 1000).
    pub limit: Option<u32>,
    /// Whether `build` has checked the parameters.
    pub state: S,
}

impl<S> MyTradesSpec<S> {
    /// `self` and `other` hold the same parameters.
    pub open spec fn same_parameters<T>(&self, other: &MyTradesSpec<T>) -> bool {
        &&& self.symbol == other.symbol
        &&& self.order_id == other.order_id
        &&& self.start_time == other.start_time
        &&& self.end_time == other.end_time
        &&& self.from_id == other.from_id
        &&& self.limit == other.limit
    }

    /// The symbol may not be blank; the limit is at most 1000; a time range ends
    /// after it starts and spans at most 24 hours; and `from_id` and `order_id`
    /// each exclude a time range.
    pub open spec fn validation(&self) -> Result<(), InvalidParameter> {
        if blank(self.symbol@) {
            Err(InvalidParameter::Empty { parameter: "symbol" })
        } else if self.limit matches Some(limit) && limit > 1000 {
            Err(InvalidParameter::Range { parameter: "limit", min: 1, max: 1000 })
        } else if self.start_time matches Some(start) && self.end_time matches Some(end) && end <= start {
            Err(
                InvalidParameter::Invalid {
                    parameter: "end_time",
                    reason: "must be greater than start_time",
                },
            )
        } else if self.start_time matches Some(start) && self.end_time matches Some(end) && end - start > 86400000 {
            Err(
                InvalidParameter::Invalid {
                    parameter: "time_range",
                    reason: "cannot be longer than 24 hours",
                },
            )
        } else if self.from_id is Some && (self.start_time is Some || self.end_time is Some) {
            Err(
                InvalidParameter::MutuallyExclusive {
                    first: "fromId",
                    second: "startTime/endTime",
                },
            )
        } else if self.order_id is Some && (self.start_time is Some || self.end_time is Some) {
            Err(
                InvalidParameter::MutuallyExclusive {
                    first: "orderId",
                    second: "startTime/endTime",
                },
            )
        } else {
            Ok(())
        }
    }
}

impl MyTradesSpec<Unvalidated> {
    /// The request for `symbol`, with no other parameter.
    pub fn new(symbol: &str) -> (r: Self)
        ensures
            r.symbol@ == symbol@,
            r.order_id is None,
            r.start_time is None,
            r.end_time is None,
            r.from_id is None,
            r.limit is None,
    {
        MyTradesSpec {
            symbol: symbol.to_owned(),
            order_id: None,
            start_time: None,
            end_time: None,
            from_id: None,
            limit: None,
            state: Unvalidated,
        }
    }

    /// Asks only for the trades of the order `order_id`.
    pub fn with_order_id(self, order_id: u64) -> (r: Self)
        ensures
            r == (MyTradesSpec { order_id: Some(order_id), ..self }),
    {
        MyTradesSpec { order_id: Some(order_id), ..self }
    }

    /// Sets the start of the time range.
    pub fn with_start_time(self, start_time: u64) -> (r: Self)
        ensures
            r == (MyTradesSpec { start_time: Some(start_time), ..self }),
    {
        MyTradesSpec { start_time: Some(start_time), ..self }
    }

    /// Sets the end of the time range.
    pub fn with_end_time(self, end_time: u64) -> (r: Self)
        ensures
            r == (MyTradesSpec { end_time: Some(end_time), ..self }),
    {
        MyTradesSpec { end_time: Some(end_time), ..self }
    }

    /// Starts from the trade `from_id`.
    pub fn with_from_id(self, from_id: u64) -> (r: Self)
        ensures
            r == (MyTradesSpec { from_id: Some(from_id), ..self }),
    {
        MyTradesSpec { from_id: Some(from_id), ..self }
    }

    /// Sets how many trades to return.
    pub fn with_limit(self, limit: u32) -> (r: Self)
        ensures
            r == (MyTradesSpec { limit: Some(limit), ..self }),
    {
        MyTradesSpec { limit: Some(limit), ..self }
    }

    /// Checks the parameters as `validation` states; on success the
    /// same parameters come back as a validated specification.
    pub fn build(self) -> (r: Result<MyTradesSpec<Validated>, InvalidParameter>)
        ensures
            match self.validation() {
                Ok(_) => r matches Ok(v) && self.same_parameters(&v),
                Err(e) => r == Err::<MyTradesSpec<Validated>, InvalidParameter>(e),
            },
            r matches Ok(v) ==> v.validation() is Ok,
    {
        if let Err(e) = self.validate() {
            return Err(e);
        }
        Ok(MyTradesSpec {
            symbol: self.symbol,
            order_id: self.order_id,
            start_time: self.start_time,
            end_time: self.end_time,
            from_id: self.from_id,
            limit: self.limit,
            state: Validated,
        })
    }

    fn validate(&self) -> (r: Result<(), InvalidParameter>)
        ensures
            r == self.validation(),
    {
        if is_blank(self.symbol.as_str()) {
            return Err(InvalidParameter::Empty { parameter: "symbol" });
        }
        if let Some(limit) = self.limit {
            if limit > 1000 {
                return Err(InvalidParameter::Range { parameter: "limit", min: 1, max: 1000 });
            }
        }
        if let (Some(start), Some(end)) = (self.start_time, self.end_time) {
            if end <= start {
                return Err(
                    InvalidParameter::Invalid {
                        parameter: "end_time",
                        reason: "must be greater than start_time",
                    },
                );
            }
            let duration = end - start;
            if duration > 24 * 60 * 60 * 1000 {
                return Err(
                    InvalidParameter::Invalid {
                        parameter: "time_range",
                        reason: "cannot be longer than 24 hours",
                    },
                );
            }
        }
        if self.from_id.is_some() && (self.start_time.is_some() || self.end_time.is_some()) {
            return Err(
                InvalidParameter::MutuallyExclusive {
                    first: "fromId",
                    second: "startTime/endTime",
                },
            );
        }
        if self.order_id.is_some() && (self.start_time.is_some() || self.end_time.is_some()) {
            return Err(
                InvalidParameter::MutuallyExclusive {
                    first: "orderId",
                    second: "startTime/endTime",
                },
            );
        }
        Ok(())
    }
}

} // verus!
