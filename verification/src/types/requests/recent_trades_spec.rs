use vstd::prelude::*;

use super::common::{Unvalidated, Validated};
use crate::errors::InvalidParameter;
use crate::text::{blank, is_blank};

verus! {

/// The parameters of a query for the most recent trades of one trading pair.
#[derive(Debug, Clone)]
pub struct RecentTradesSpec<S = Unvalidated> {
    /// The trading pair, such as "BTCUSDT".
    pub symbol: String,
    /// How many trades to return (default 500, at most 1000).
    pub limit: Option<u16>,
    /// Whether `build` has checked the parameters.
    pub state: S,
}

impl<S> RecentTradesSpec<S> {
    /// `self` and `other` hold the same parameters.
    pub open spec fn same_parameters<T>(&self, other: &RecentTradesSpec<T>) -> bool {
        &&& self.symbol == other.symbol
        &&& self.limit == other.limit
    }

    /// The symbol may not be blank and the limit may not exceed 1000.
    pub open spec fn validation(&self) -> Result<(), InvalidParameter> {
        if blank(self.symbol@) {
            Err(InvalidParameter::Empty { parameter: "symbol" })
        } else if self.limit matches Some(limit) && limit > 1000 {
            Err(InvalidParameter::Range { parameter: "limit", min: 1, max: 1000 })
        } else {
            Ok(())
        }
    }
}

impl RecentTradesSpec<Unvalidated> {
    /// The query for `symbol`, with no other parameter.
    pub fn new(symbol: &str) -> (r: Self)
        ensures
            r.symbol@ == symbol@,
            r.limit is None,
    {
        RecentTradesSpec {
            symbol: symbol.to_owned(),
            limit: None,
            state: Unvalidated,
        }
    }

    /// Sets how many trades to return.
    pub fn with_limit(self, limit: u16) -> (r: Self)
        ensures
            r == (RecentTradesSpec { limit: Some(limit), ..self }),
    {
        RecentTradesSpec { limit: Some(limit), ..self }
    }

    /// Checks the parameters as `validation` states; on success the
    /// same parameters come back as a validated specification.
    pub fn build(self) -> (r: Result<RecentTradesSpec<Validated>, InvalidParameter>)
        ensures
            match self.validation() {
                Ok(_) => r matches Ok(v) && self.same_parameters(&v),
                Err(e) => r == Err::<RecentTradesSpec<Validated>, InvalidParameter>(e),
            },
            r matches Ok(v) ==> v.validation() is Ok,
    {
        if let Err(e) = self.validate() {
            return Err(e);
        }
        Ok(RecentTradesSpec {
            symbol: self.symbol,
            limit: self.limit,
            state: Validated,
        })
    }

    /// Checks the parameters as `validation` states.
    pub fn validate(&self) -> (r: Result<(), InvalidParameter>)
        ensures
            r == self.validation(),
    {
        if is_blank(self.symbol.as_str()) {
            return Err(InvalidParameter::Empty { parameter: "symbol" });
        }
        if let Some(limit) = self.limit {
            if limit > 1000 {
                return Err(InvalidParameter::Range { parameter: "limit", min: 1, max: 1000 });
            }
        }
        Ok(())
    }
}

} // verus!
