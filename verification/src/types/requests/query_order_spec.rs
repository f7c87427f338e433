use vstd::prelude::*;

use super::common::{Unvalidated, Validated};
use crate::errors::InvalidParameter;
use crate::text::{blank, is_blank};

verus! {

/// The parameters of a query for the status of one order.
#[derive(Debug, Clone)]
pub struct QueryOrderSpec<S = Unvalidated> {
    /// The trading pair, such as "BTCUSDT".
    pub symbol: String,
    /// The ID of the order.
    pub order_id: Option<u64>,
    /// The client order ID of the order.
    pub original_client_order_id: Option<String>,
    /// Whether `build` has checked the parameters.
    pub state: S,
}

impl<S> QueryOrderSpec<S> {
    /// `self` and `other` hold the same parameters.
    pub open spec fn same_parameters<T>(&self, other: &QueryOrderSpec<T>) -> bool {
        &&& self.symbol == other.symbol
        &&& self.order_id == other.order_id
        &&& self.original_client_order_id == other.original_client_order_id
    }

    /// The symbol may not be blank and the order is named by ID or client order ID.
    pub open spec fn validation(&self) -> Result<(), InvalidParameter> {
        if blank(self.symbol@) {
            Err(InvalidParameter::Empty { parameter: "symbol" })
        } else if self.order_id is None && self.original_client_order_id is None {
            Err(
                InvalidParameter::Invalid {
                    parameter: "order_id or original_client_order_id",
                    reason: "must be specified",
                },
            )
        } else {
            Ok(())
        }
    }
}

impl QueryOrderSpec<Unvalidated> {
    /// The request for `symbol`, with no other parameter.
    pub fn new(symbol: &str) -> (r: Self)
        ensures
            r.symbol@ == symbol@,
            r.order_id is None,
            r.original_client_order_id is None,
    {
        QueryOrderSpec {
            symbol: symbol.to_owned(),
            order_id: None,
            original_client_order_id: None,
            state: Unvalidated,
        }
    }

    /// Names the order by ID.
    pub fn with_order_id(self, order_id: u64) -> (r: Self)
        ensures
            r == (QueryOrderSpec { order_id: Some(order_id), ..self }),
    {
        QueryOrderSpec { order_id: Some(order_id), ..self }
    }

    /// Names the order by client order ID.
    pub fn with_original_client_order_id(self, original_client_order_id: &str) -> (r: Self)
        ensures
            r == (QueryOrderSpec { original_client_order_id: r.original_client_order_id, ..self }),
            r.original_client_order_id matches Some(v) && v@ == original_client_order_id@,
    {
        QueryOrderSpec { original_client_order_id: Some(original_client_order_id.to_owned()), ..self }
    }

    /// Checks the parameters as `validation` states; on success the
    /// same parameters come back as a validated specification.
    pub fn build(self) -> (r: Result<QueryOrderSpec<Validated>, InvalidParameter>)
        ensures
            match self.validation() {
                Ok(_) => r matches Ok(v) && self.same_parameters(&v),
                Err(e) => r == Err::<QueryOrderSpec<Validated>, InvalidParameter>(e),
            },
            r matches Ok(v) ==> v.validation() is Ok,
    {
        if let Err(e) = self.validate() {
            return Err(e);
        }
        Ok(QueryOrderSpec {
            symbol: self.symbol,
            order_id: self.order_id,
            original_client_order_id: self.original_client_order_id,
            state: Validated,
        })
    }

    fn validate(&self) -> (r: Result<(), InvalidParameter>)
        ensures
            r == self.validation(),
    {
        if is_blank(self.symbol.as_str()) {
            return Err(InvalidParameter::Empty { parameter: "symbol" });
        }
        if self.order_id.is_none() && self.original_client_order_id.is_none() {
            return Err(
                InvalidParameter::Invalid {
                    parameter: "order_id or original_client_order_id",
                    reason: "must be specified",
                },
            );
        }
        Ok(())
    }
}

} // verus!
