use vstd::prelude::*;

use super::common::{Unvalidated, Validated};
use crate::errors::InvalidParameter;
use crate::text::{blank, is_blank};

verus! {

/// The parameters of a query for all orders of the account on one trading
/// pair: open, cancelled or filled.
#[derive(Debug, Clone)]
pub struct AllOrdersSpec<S = Unvalidated> {
    /// The trading pair, such as "BTCUSDT".
    pub symbol: String,
    /// The order ID to start from (inclusive).
    pub order_id: Option<u64>,
    /// The start of the time range in milliseconds.
    pub start_time: Option<u64>,
    /// The end of the time range in milliseconds.
    pub end_time: Option<u64>,
    /// How many orders to return (default 500, at most 1000).
    pub limit: Option<u32>,
    /// Whether `build` has checked the parameters.
    pub state: S,
}

impl<S> AllOrdersSpec<S> {
    /// `self` and `other` hold the same parameters.
    pub open spec fn same_parameters<T>(&self, other: &AllOrdersSpec<T>) -> bool {
        &&& self.symbol == other.symbol
        &&& self.order_id == other.order_id
        &&& self.start_time == other.start_time
        &&& self.end_time == other.end_time
        &&& self.limit == other.limit
    }

    /// The symbol may not be blank, the limit may not exceed 1000, and a time
    /// range ends after it starts and spans at most 24 hours.
    pub open spec fn validation(&self) -> Result<(), InvalidParameter> {
        if blank(self.symbol@) {
            Err(InvalidParameter::Empty { parameter: "symbol" })
        } else if self.limit matches Some(limit) && limit > 1000 {
            Err(InvalidParameter::Range { parameter: "limit", min: 1, max: 1000 })
        } else if self.start_time matches Some(start) && self.end_time matches Some(end) && end <= start {
            Err(
                InvalidParameter::Invalid {
                    parameter: "start_time/end_time",
                    reason: "end_time must be greater than start_time",
                },
            )
        } else if self.start_time matches Some(start) && self.end_time matches Some(end) && end - start > 86400000 {
            Err(
                InvalidParameter::Invalid {
                    parameter: "start/end",
                    reason: "time range can not be longer than 24 hours",
                },
            )
        } else {
            Ok(())
        }
    }
}

impl AllOrdersSpec<Unvalidated> {
    /// The query for `symbol`, with no other parameter.
    pub fn new(symbol: &str) -> (r: Self)
        ensures
            r.symbol@ == symbol@,
            r.order_id is None,
            r.start_time is None,
            r.end_time is None,
            r.limit is None,
    {
        AllOrdersSpec {
            symbol: symbol.to_owned(),
            order_id: None,
            start_time: None,
            end_time: None,
            limit: None,
            state: Unvalidated,
        }
    }

    /// Starts from the order `order_id`.
    pub fn with_order_id(self, order_id: u64) -> (r: Self)
        ensures
            r == (AllOrdersSpec { order_id: Some(order_id), ..self }),
    {
        AllOrdersSpec { order_id: Some(order_id), ..self }
    }

    /// Sets the start of the time range.
    pub fn with_start_time(self, start_time: u64) -> (r: Self)
        ensures
            r == (AllOrdersSpec { start_time: Some(start_time), ..self }),
    {
        AllOrdersSpec { start_time: Some(start_time), ..self }
    }

    /// Sets the end of the time range.
    pub fn with_end_time(self, end_time: u64) -> (r: Self)
        ensures
            r == (AllOrdersSpec { end_time: Some(end_time), ..self }),
    {
        AllOrdersSpec { end_time: Some(end_time), ..self }
    }

    /// Sets how many orders to return.
    pub fn with_limit(self, limit: u32) -> (r: Self)
        ensures
            r == (AllOrdersSpec { limit: Some(limit), ..self }),
    {
        AllOrdersSpec { limit: Some(limit), ..self }
    }

    /// Checks the parameters as `validation` states; on success the
    /// same parameters come back as a validated specification.
    pub fn build(self) -> (r: Result<AllOrdersSpec<Validated>, InvalidParameter>)
        ensures
            match self.validation() {
                Ok(_) => r matches Ok(v) && self.same_parameters(&v),
                Err(e) => r == Err::<AllOrdersSpec<Validated>, InvalidParameter>(e),
            },
            r matches Ok(v) ==> v.validation() is Ok,
    {
        if let Err(e) = self.validate() {
            return Err(e);
        }
        Ok(AllOrdersSpec {
            symbol: self.symbol,
            order_id: self.order_id,
            start_time: self.start_time,
            end_time: self.end_time,
            limit: self.limit,
            state: Validated,
        })
    }

    fn validate(&self) -> (r: Result<(), InvalidParameter>)
        ensures
            r == self.validation(),
    {
        if is_blank(self.symbol.as_str()) {
            return Err(InvalidParameter::Empty { parameter: "symbol" });
        }
        if let Some(limit) = self.limit {
            if limit > 1000 {
                return Err(InvalidParameter::Range { parameter: "limit", min: 1, max: 1000 });
            }
        }
        if let (Some(start), Some(end)) = (self.start_time, self.end_time) {
            if end <= start {
                return Err(
                    InvalidParameter::Invalid {
                        parameter: "start_time/end_time",
                        reason: "end_time must be greater than start_time",
                    },
                );
            }
            if end - start > 86400000 {
                return Err(
                    InvalidParameter::Invalid {
                        parameter: "start/end",
                        reason: "time range can not be longer than 24 hours",
                    },
                );
            }
        }
        Ok(())
    }
}

} // verus!
