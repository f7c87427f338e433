use vstd::prelude::*;

use super::common::{Unvalidated, Validated};
use crate::errors::InvalidParameter;
use crate::text::{blank, is_blank};

verus! {

/// The parameters of a query for the compressed (aggregate) trades of one
/// trading pair, by trade ID range, time range and count.
#[derive(Debug, Clone)]
pub struct AggregateTradesSpec<S = Unvalidated> {
    /// The trading pair, such as "BTCUSDT".
    pub symbol: String,
    /// The aggregate trade ID to start from (inclusive).
    pub from_id: Option<u64>,
    /// The start of the time range in milliseconds (inclusive).
    pub start_time: Option<u64>,
    /// The end of the time range in milliseconds (inclusive).
    pub end_time: Option<u64>,
    /// How many trades to return (default 500, at most 1000).
    pub limit: Option<u16>,
    /// Whether `build` has checked the parameters.
    pub state: S,
}

impl<S> AggregateTradesSpec<S> {
    /// `self` and `other` hold the same parameters.
    pub open spec fn same_parameters<T>(&self, other: &AggregateTradesSpec<T>) -> bool {
        &&& self.symbol == other.symbol
        &&& self.from_id == other.from_id
        &&& self.start_time == other.start_time
        &&& self.end_time == other.end_time
        &&& self.limit == other.limit
    }

    /// The symbol may not be blank and the limit may not exceed 1000.
    pub open spec fn validation(&self) -> Result<(), InvalidParameter> {
        if blank(self.symbol@) {
            Err(InvalidParameter::Empty { parameter: "symbol" })
        } else if self.limit matches Some(limit) && limit > 1000 {
            Err(InvalidParameter::Range { parameter: "limit", min: 1, max: 1000 })
        } else {
            Ok(())
        }
    }
}

impl AggregateTradesSpec<Unvalidated> {
    /// The query for `symbol`, with no other parameter.
    pub fn new(symbol: &str) -> (r: Self)
        ensures
            r.symbol@ == symbol@,
            r.from_id is None,
            r.start_time is None,
            r.end_time is None,
            r.limit is None,
    {
        AggregateTradesSpec {
            symbol: symbol.to_owned(),
            from_id: None,
            start_time: None,
            end_time: None,
            limit: None,
            state: Unvalidated,
        }
    }

    /// Starts from the aggregate trade `from_id`.
    pub fn with_from_id(self, from_id: u64) -> (r: Self)
        ensures
            r == (AggregateTradesSpec { from_id: Some(from_id), ..self }),
    {
        AggregateTradesSpec { from_id: Some(from_id), ..self }
    }

    /// Sets the start of the time range.
    pub fn with_start_time(self, start_time: u64) -> (r: Self)
        ensures
            r == (AggregateTradesSpec { start_time: Some(start_time), ..self }),
    {
        AggregateTradesSpec { start_time: Some(start_time), ..self }
    }

    /// Sets the end of the time range.
    pub fn with_end_time(self, end_time: u64) -> (r: Self)
        ensures
            r == (AggregateTradesSpec { end_time: Some(end_time), ..self }),
    {
        AggregateTradesSpec { end_time: Some(end_time), ..self }
    }

    /// Sets how many trades to return.
    pub fn with_limit(self, limit: u16) -> (r: Self)
        ensures
            r == (AggregateTradesSpec { limit: Some(limit), ..self }),
    {
        AggregateTradesSpec { limit: Some(limit), ..self }
    }

    /// Checks the parameters as `validation` states; on success the
    /// same parameters come back as a validated specification.
    pub fn build(self) -> (r: Result<AggregateTradesSpec<Validated>, InvalidParameter>)
        ensures
            match self.validation() {
                Ok(_) => r matches Ok(v) && self.same_parameters(&v),
                Err(e) => r == Err::<AggregateTradesSpec<Validated>, InvalidParameter>(e),
            },
            r matches Ok(v) ==> v.validation() is Ok,
    {
        if let Err(e) = self.validate() {
            return Err(e);
        }
        Ok(AggregateTradesSpec {
            symbol: self.symbol,
            from_id: self.from_id,
            start_time: self.start_time,
            end_time: self.end_time,
            limit: self.limit,
            state: Validated,
        })
    }

    fn validate(&self) -> (r: Result<(), InvalidParameter>)
        ensures
            r == self.validation(),
    {
        if is_blank(self.symbol.as_str()) {
            return Err(InvalidParameter::Empty { parameter: "symbol" });
        }
        if let Some(limit) = self.limit {
            if limit > 1000 {
                return Err(InvalidParameter::Range { parameter: "limit", min: 1, max: 1000 });
            }
        }
        Ok(())
    }
}

} // verus!
