use vstd::prelude::*;

use super::common::{Unvalidated, Validated};
use crate::errors::InvalidParameter;
use crate::text::{blank, is_blank};

verus! {

/// The parameters of a query for the orders of the account that expired
/// because of self-trade prevention.
#[derive(Debug, Clone)]
pub struct PreventedMatchesSpec<S = Unvalidated> {
    /// The trading pair, such as "BTCUSDT".
    pub symbol: String,
    /// The ID of one prevented match.
    pub prevented_match_id: Option<u64>,
    /// The order whose prevented matches to return.
    pub order_id: Option<u64>,
    /// The prevented match ID to start from (with `order_id`).
    pub from_prevented_match_id: Option<u64>,
    /// How many prevented matches to return (default 500, 1 to 1000).
    pub limit: Option<u32>,
    /// Whether `build` has checked the parameters.
    pub state: S,
}

impl<S> PreventedMatchesSpec<S> {
    /// `self` and `other` hold the same parameters.
    pub open spec fn same_parameters<T>(&self, other: &PreventedMatchesSpec<T>) -> bool {
        &&& self.symbol == other.symbol
        &&& self.prevented_match_id == other.prevented_match_id
        &&& self.order_id == other.order_id
        &&& self.from_prevented_match_id == other.from_prevented_match_id
        &&& self.limit == other.limit
    }

    /// The symbol may not be blank; exactly one of `prevented_match_id` and
    /// `order_id` is given; `from_prevented_match_id` comes with `order_id`; and
    /// the limit lies in 1..=1000.
    pub open spec fn validation(&self) -> Result<(), InvalidParameter> {
        if blank(self.symbol@) {
            Err(InvalidParameter::Empty { parameter: "symbol" })
        } else if self.prevented_match_id is Some && self.order_id is Some {
            Err(
                InvalidParameter::MutuallyExclusive {
                    first: "prevented_match_id",
                    second: "order_id",
                },
            )
        } else if self.prevented_match_id is None && self.order_id is None {
            Err(
                InvalidParameter::Invalid {
                    parameter: "prevented_match_id or order_id",
                    reason: "must be specified",
                },
            )
        } else if self.from_prevented_match_id is Some && self.order_id is None {
            Err(
                InvalidParameter::Invalid {
                    parameter: "from_prevented_match_id",
                    reason: "requires order_id to be specified",
                },
            )
        } else if self.limit matches Some(limit) && (limit == 0 || limit > 1000) {
            Err(InvalidParameter::Range { parameter: "limit", min: 1, max: 1000 })
        } else {
            Ok(())
        }
    }
}

impl PreventedMatchesSpec<Unvalidated> {
    /// The request for `symbol`, with no other parameter.
    pub fn new(symbol: &str) -> (r: Self)
        ensures
            r.symbol@ == symbol@,
            r.prevented_match_id is None,
            r.order_id is None,
            r.from_prevented_match_id is None,
            r.limit is None,
    {
        PreventedMatchesSpec {
            symbol: symbol.to_owned(),
            prevented_match_id: None,
            order_id: None,
            from_prevented_match_id: None,
            limit: None,
            state: Unvalidated,
        }
    }

    /// Asks for one prevented match.
    pub fn with_prevented_match_id(self, prevented_match_id: u64) -> (r: Self)
        ensures
            r == (PreventedMatchesSpec { prevented_match_id: Some(prevented_match_id), ..self }),
    {
        PreventedMatchesSpec { prevented_match_id: Some(prevented_match_id), ..self }
    }

    /// Asks for the prevented matches of the order `order_id`.
    pub fn with_order_id(self, order_id: u64) -> (r: Self)
        ensures
            r == (PreventedMatchesSpec { order_id: Some(order_id), ..self }),
    {
        PreventedMatchesSpec { order_id: Some(order_id), ..self }
    }

    /// Starts from the prevented match `from_prevented_match_id`.
    pub fn with_from_prevented_match_id(self, from_prevented_match_id: u64) -> (r: Self)
        ensures
            r == (PreventedMatchesSpec { from_prevented_match_id: Some(from_prevented_match_id), ..self }),
    {
        PreventedMatchesSpec { from_prevented_match_id: Some(from_prevented_match_id), ..self }
    }

    /// Sets how many prevented matches to return.
    pub fn with_limit(self, limit: u32) -> (r: Self)
        ensures
            r == (PreventedMatchesSpec { limit: Some(limit), ..self }),
    {
        PreventedMatchesSpec { limit: Some(limit), ..self }
    }

    /// Checks the parameters as `validation` states; on success the
    /// same parameters come back as a validated specification.
    pub fn build(self) -> (r: Result<PreventedMatchesSpec<Validated>, InvalidParameter>)
        ensures
            match self.validation() {
                Ok(_) => r matches Ok(v) && self.same_parameters(&v),
                Err(e) => r == Err::<PreventedMatchesSpec<Validated>, InvalidParameter>(e),
            },
            r matches Ok(v) ==> v.validation() is Ok,
    {
        if let Err(e) = self.validate() {
            return Err(e);
        }
        Ok(PreventedMatchesSpec {
            symbol: self.symbol,
            prevented_match_id: self.prevented_match_id,
            order_id: self.order_id,
            from_prevented_match_id: self.from_prevented_match_id,
            limit: self.limit,
            state: Validated,
        })
    }

    fn validate(&self) -> (r: Result<(), InvalidParameter>)
        ensures
            r == self.validation(),
    {
        if is_blank(self.symbol.as_str()) {
            return Err(InvalidParameter::Empty { parameter: "symbol" });
        }
        if self.prevented_match_id.is_some() && self.order_id.is_some() {
            return Err(
                InvalidParameter::MutuallyExclusive {
                    first: "prevented_match_id",
                    second: "order_id",
                },
            );
        }
        if self.prevented_match_id.is_none() && self.order_id.is_none() {
            return Err(
                InvalidParameter::Invalid {
                    parameter: "prevented_match_id or order_id",
                    reason: "must be specified",
                },
            );
        }
        if self.from_prevented_match_id.is_some() && self.order_id.is_none() {
            return Err(
                InvalidParameter::Invalid {
                    parameter: "from_prevented_match_id",
                    reason: "requires order_id to be specified",
                },
            );
        }
        if let Some(limit) = self.limit {
            if limit == 0 || limit > 1000 {
                return Err(InvalidParameter::Range { parameter: "limit", min: 1, max: 1000 });
            }
        }
        Ok(())
    }
}

} // verus!
