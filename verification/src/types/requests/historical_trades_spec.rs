use vstd::prelude::*;

use super::common::{Unvalidated, Validated};
use crate::errors::InvalidParameter;
use crate::text::{blank, is_blank};

verus! {

/// The parameters of a query for older trades of one trading pair.
#[derive(Debug, Clone)]
pub struct HistoricalTradesSpec<S = Unvalidated> {
    /// The trading pair, such as "BTCUSDT".
    pub symbol: String,
    /// How many trades to return (default 500, at most 1000).
    pub limit: Option<u16>,
    /// The trade ID to start from (inclusive).
    pub from_id: Option<u64>,
    /// Whether `build` has checked the parameters.
    pub state: S,
}

impl<S> HistoricalTradesSpec<S> {
    /// `self` and `other` hold the same parameters.
    pub open spec fn same_parameters<T>(&self, other: &HistoricalTradesSpec<T>) -> bool {
        &&& self.symbol == other.symbol
        &&& self.limit == other.limit
        &&& self.from_id == other.from_id
    }

    /// The symbol may not be blank and the limit may not exceed 1000.
    pub open spec fn validation(&self) -> Result<(), InvalidParameter> {
        if blank(self.symbol@) {
            Err(InvalidParameter::Empty { parameter: "symbol" })
        } else if self.limit matches Some(limit) && limit > 1000 {
            Err(InvalidParameter::Range { parameter: "limit", min: 1, max: 1000 })
        } else {
            Ok(())
        }
    }
}

impl HistoricalTradesSpec<Unvalidated> {
    /// The query for `symbol`, with no other parameter.
    pub fn new(symbol: &str) -> (r: Self)
        ensures
            r.symbol@ == symbol@,
            r.limit is None,
            r.from_id is None,
    {
        HistoricalTradesSpec {
            symbol: symbol.to_owned(),
            limit: None,
            from_id: None,
            state: Unvalidated,
        }
    }

    /// Sets how many trades to return.
    pub fn with_limit(self, limit: u16) -> (r: Self)
        ensures
            r == (HistoricalTradesSpec { limit: Some(limit), ..self }),
    {
        HistoricalTradesSpec { limit: Some(limit), ..self }
    }

    /// Starts from the trade `from_id`.
    pub fn with_from_id(self, from_id: u64) -> (r: Self)
        ensures
            r == (HistoricalTradesSpec { from_id: Some(from_id), ..self }),
    {
        HistoricalTradesSpec { from_id: Some(from_id), ..self }
    }

    /// Checks the parameters as `validation` states; on success the
    /// same parameters come back as a validated specification.
    pub fn build(self) -> (r: Result<HistoricalTradesSpec<Validated>, InvalidParameter>)
        ensures
            match self.validation() {
                Ok(_) => r matches Ok(v) && self.same_parameters(&v),
                Err(e) => r == Err::<HistoricalTradesSpec<Validated>, InvalidParameter>(e),
            },
            r matches Ok(v) ==> v.validation() is Ok,
    {
        if let Err(e) = self.validate() {
            return Err(e);
        }
        Ok(HistoricalTradesSpec {
            symbol: self.symbol,
            limit: self.limit,
            from_id: self.from_id,
            state: Validated,
        })
    }

    fn validate(&self) -> (r: Result<(), InvalidParameter>)
        ensures
            r == self.validation(),
    {
        if is_blank(self.symbol.as_str()) {
            return Err(InvalidParameter::Empty { parameter: "symbol" });
        }
        if let Some(limit) = self.limit {
            if limit > 1000 {
                return Err(InvalidParameter::Range { parameter: "limit", min: 1, max: 1000 });
            }
        }
        Ok(())
    }
}

} // verus!
