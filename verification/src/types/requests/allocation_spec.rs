use vstd::prelude::*;

use super::common::{Unvalidated, Validated};
use crate::errors::InvalidParameter;
use crate::text::{blank, is_blank};

verus! {

/// The parameters of a query for the allocations (from smart order routing)
/// of the account on one trading pair.
#[derive(Debug, Clone)]
pub struct AllocationSpec<S = Unvalidated> {
    /// The trading pair, such as "BTCUSDT".
    pub symbol: String,
    /// The start of the time range in milliseconds.
    pub start_time: Option<u64>,
    /// The end of the time range in milliseconds.
    pub end_time: Option<u64>,
    /// The allocation ID to start from.
    pub from_allocation_id: Option<u32>,
    /// How many allocations to return (default 500, at most 1000).
    pub limit: Option<u32>,
    /// The order whose allocations to return.
    pub order_id: Option<u64>,
    /// Whether `build` has checked the parameters.
    pub state: S,
}

impl<S> AllocationSpec<S> {
    /// `self` and `other` hold the same parameters.
    pub open spec fn same_parameters<T>(&self, other: &AllocationSpec<T>) -> bool {
        &&& self.symbol == other.symbol
        &&& self.start_time == other.start_time
        &&& self.end_time == other.end_time
        &&& self.from_allocation_id == other.from_allocation_id
        &&& self.limit == other.limit
        &&& self.order_id == other.order_id
    }

    /// The symbol may not be blank, the limit may not exceed 1000, and a time
    /// range ends after it starts and spans at most 24 hours.
    pub open spec fn validation(&self) -> Result<(), InvalidParameter> {
        if blank(self.symbol@) {
            Err(InvalidParameter::Empty { parameter: "symbol" })
        } else if self.limit matches Some(limit) && limit > 1000 {
            Err(InvalidParameter::Range { parameter: "limit", min: 1, max: 1000 })
        } else if self.start_time matches Some(start) && self.end_time matches Some(end) && end <= start {
            Err(
                InvalidParameter::Invalid {
                    parameter: "start_time/end_time",
                    reason: "end_time must be greater than start_time",
                },
            )
        } else if self.start_time matches Some(start) && self.end_time matches Some(end) && end - start > 86400000 {
            Err(
                InvalidParameter::Invalid {
                    parameter: "start_time/end_time",
                    reason: "end_time - start_time can not be longer than 24 hours",
                },
            )
        } else {
            Ok(())
        }
    }
}

impl AllocationSpec<Unvalidated> {
    /// The query for `symbol`, with no other parameter.
    pub fn new(symbol: &str) -> (r: Self)
        ensures
            r.symbol@ == symbol@,
            r.start_time is None,
            r.end_time is None,
            r.from_allocation_id is None,
            r.limit is None,
            r.order_id is None,
    {
        AllocationSpec {
            symbol: symbol.to_owned(),
            start_time: None,
            end_time: None,
            from_allocation_id: None,
            limit: None,
            order_id: None,
            state: Unvalidated,
        }
    }

    /// Sets the start of the time range.
    pub fn with_start_time(self, start_time: u64) -> (r: Self)
        ensures
            r == (AllocationSpec { start_time: Some(start_time), ..self }),
    {
        AllocationSpec { start_time: Some(start_time), ..self }
    }

    /// Sets the end of the time range.
    pub fn with_end_time(self, end_time: u64) -> (r: Self)
        ensures
            r == (AllocationSpec { end_time: Some(end_time), ..self }),
    {
        AllocationSpec { end_time: Some(end_time), ..self }
    }

    /// Starts from the allocation `from_allocation_id`.
    pub fn with_from_allocation_id(self, from_allocation_id: u32) -> (r: Self)
        ensures
            r == (AllocationSpec { from_allocation_id: Some(from_allocation_id), ..self }),
    {
        AllocationSpec { from_allocation_id: Some(from_allocation_id), ..self }
    }

    /// Sets how many allocations to return.
    pub fn with_limit(self, limit: u32) -> (r: Self)
        ensures
            r == (AllocationSpec { limit: Some(limit), ..self }),
    {
        AllocationSpec { limit: Some(limit), ..self }
    }

    /// Returns the allocations of the order `order_id`.
    pub fn with_order_id(self, order_id: u64) -> (r: Self)
        ensures
            r == (AllocationSpec { order_id: Some(order_id), ..self }),
    {
        AllocationSpec { order_id: Some(order_id), ..self }
    }

    /// Checks the parameters as `validation` states; on success the
    /// same parameters come back as a validated specification.
    pub fn build(self) -> (r: Result<AllocationSpec<Validated>, InvalidParameter>)
        ensures
            match self.validation() {
                Ok(_) => r matches Ok(v) && self.same_parameters(&v),
                Err(e) => r == Err::<AllocationSpec<Validated>, InvalidParameter>(e),
            },
            r matches Ok(v) ==> v.validation() is Ok,
    {
        if let Err(e) = self.validate() {
            return Err(e);
        }
        Ok(AllocationSpec {
            symbol: self.symbol,
            start_time: self.start_time,
            end_time: self.end_time,
            from_allocation_id: self.from_allocation_id,
            limit: self.limit,
            order_id: self.order_id,
            state: Validated,
        })
    }

    fn validate(&self) -> (r: Result<(), InvalidParameter>)
        ensures
            r == self.validation(),
    {
        if is_blank(self.symbol.as_str()) {
            return Err(InvalidParameter::Empty { parameter: "symbol" });
        }
        if let Some(limit) = self.limit {
            if limit > 1000 {
                return Err(InvalidParameter::Range { parameter: "limit", min: 1, max: 1000 });
            }
        }
        if let (Some(start), Some(end)) = (self.start_time, self.end_time) {
            if end <= start {
                return Err(
                    InvalidParameter::Invalid {
                        parameter: "start_time/end_time",
                        reason: "end_time must be greater than start_time",
                    },
                );
            }
            if end - start > 86400000 {
                return Err(
                    InvalidParameter::Invalid {
                        parameter: "start_time/end_time",
                        reason: "end_time - start_time can not be longer than 24 hours",
                    },
                );
            }
        }
        Ok(())
    }
}

} // verus!
