use vstd::prelude::*;

use super::common::{Unvalidated, Validated};
use crate::decimal::Decimal;
use crate::errors::InvalidParameter;
use crate::text::{blank, is_blank};

verus! {

/// The parameters of a request that reduces the quantity of an open order
/// while it keeps its place in the queue.
#[derive(Debug, Clone)]
pub struct AmendOrderSpec<S = Unvalidated> {
    /// The trading pair, such as "BTCUSDT".
    pub symbol: String,
    /// The ID of the order to amend.
    pub order_id: Option<u64>,
    /// The client order ID of the order to amend.
    pub original_client_order_id: Option<String>,
    /// A new client order ID for the amended order.
    pub new_client_order_id: Option<String>,
    /// The new, smaller quantity.
    pub new_quantity: Decimal,
    /// Whether `build` has checked the parameters.
    pub state: S,
}

impl<S> AmendOrderSpec<S> {
    /// `self` and `other` hold the same parameters.
    pub open spec fn same_parameters<T>(&self, other: &AmendOrderSpec<T>) -> bool {
        &&& self.symbol == other.symbol
        &&& self.order_id == other.order_id
        &&& self.original_client_order_id == other.original_client_order_id
        &&& self.new_client_order_id == other.new_client_order_id
        &&& self.new_quantity == other.new_quantity
    }

    /// The symbol may not be blank; the order is named by exactly one of its ID
    /// and its client order ID, which may not be blank; the new quantity is greater
    /// than zero.
    pub open spec fn validation(&self) -> Result<(), InvalidParameter> {
        if blank(self.symbol@) {
            Err(InvalidParameter::Empty { parameter: "symbol" })
        } else if self.order_id is None && self.original_client_order_id is None {
            Err(InvalidParameter::Required { parameter: "order_id or orig_client_order_id" })
        } else if self.order_id is Some && self.original_client_order_id is Some {
            Err(
                InvalidParameter::MutuallyExclusive {
                    first: "order_id",
                    second: "orig_client_order_id",
                },
            )
        } else if self.original_client_order_id matches Some(id) && blank(id@) {
            Err(InvalidParameter::Empty { parameter: "orig_client_order_id" })
        } else if !self.new_quantity.is_positive() {
            Err(
                InvalidParameter::Invalid {
                    parameter: "new_quantity",
                    reason: "must be greater than 0",
                },
            )
        } else {
            Ok(())
        }
    }
}

impl AmendOrderSpec<Unvalidated> {
    /// The request that amends an order on `symbol` to `new_quantity`.
    pub fn new(symbol: &str, new_quantity: Decimal) -> (r: Self)
        ensures
            r.symbol@ == symbol@,
            r.order_id is None,
            r.original_client_order_id is None,
            r.new_client_order_id is None,
            r.new_quantity == new_quantity,
    {
        AmendOrderSpec {
            symbol: symbol.to_owned(),
            order_id: None,
            original_client_order_id: None,
            new_client_order_id: None,
            new_quantity: new_quantity,
            state: Unvalidated,
        }
    }

    /// Names the order by ID.
    pub fn with_order_id(self, order_id: u64) -> (r: Self)
        ensures
            r == (AmendOrderSpec { order_id: Some(order_id), ..self }),
    {
        AmendOrderSpec { order_id: Some(order_id), ..self }
    }

    /// Names the order by client order ID.
    pub fn with_original_client_order_id(self, original_id: &str) -> (r: Self)
        ensures
            r == (AmendOrderSpec { original_client_order_id: r.original_client_order_id, ..self }),
            r.original_client_order_id matches Some(v) && v@ == original_id@,
    {
        AmendOrderSpec { original_client_order_id: Some(original_id.to_owned()), ..self }
    }

    /// Sets a new client order ID.
    pub fn with_new_client_order_id(self, new_id: &str) -> (r: Self)
        ensures
            r == (AmendOrderSpec { new_client_order_id: r.new_client_order_id, ..self }),
            r.new_client_order_id matches Some(v) && v@ == new_id@,
    {
        AmendOrderSpec { new_client_order_id: Some(new_id.to_owned()), ..self }
    }

    /// Checks the parameters as `validation` states; on success the
    /// same parameters come back as a validated specification.
    pub fn build(self) -> (r: Result<AmendOrderSpec<Validated>, InvalidParameter>)
        ensures
            match self.validation() {
                Ok(_) => r matches Ok(v) && self.same_parameters(&v),
                Err(e) => r == Err::<AmendOrderSpec<Validated>, InvalidParameter>(e),
            },
            r matches Ok(v) ==> v.validation() is Ok,
    {
        if let Err(e) = self.validate() {
            return Err(e);
        }
        Ok(AmendOrderSpec {
            symbol: self.symbol,
            order_id: self.order_id,
            original_client_order_id: self.original_client_order_id,
            new_client_order_id: self.new_client_order_id,
            new_quantity: self.new_quantity,
            state: Validated,
        })
    }

    fn validate(&self) -> (r: Result<(), InvalidParameter>)
        ensures
            r == self.validation(),
    {
        if is_blank(self.symbol.as_str()) {
            return Err(InvalidParameter::Empty { parameter: "symbol" });
        }
        if self.order_id.is_none() && self.original_client_order_id.is_none() {
            return Err(
                InvalidParameter::Required {
                    parameter: "order_id or orig_client_order_id",
                },
            );
        }
        if self.order_id.is_some() && self.original_client_order_id.is_some() {
            return Err(
                InvalidParameter::MutuallyExclusive {
                    first: "order_id",
                    second: "orig_client_order_id",
                },
            );
        }
        if let Some(id) = &self.original_client_order_id {
            if is_blank(id.as_str()) {
                return Err(InvalidParameter::Empty { parameter: "orig_client_order_id" });
            }
        }
        if !self.new_quantity.is_greater_than_zero() {
            return Err(
                InvalidParameter::Invalid {
                    parameter: "new_quantity",
                    reason: "must be greater than 0",
                },
            );
        }
        Ok(())
    }
}

} // verus!
