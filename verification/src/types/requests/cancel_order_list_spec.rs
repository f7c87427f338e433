use vstd::prelude::*;

use super::common::{Unvalidated, Validated};
use crate::errors::InvalidParameter;
use crate::text::{blank, is_blank};

verus! {

/// The parameters of a request that cancels a whole order list.
#[derive(Debug, Clone)]
pub struct CancelOrderListSpec<S = Unvalidated> {
    /// The trading pair, such as "BTCUSDT".
    pub symbol: String,
    /// The ID of the order list to cancel.
    pub order_list_id: Option<u64>,
    /// The client ID of the order list to cancel.
    pub list_client_order_id: Option<String>,
    /// A client-chosen ID for the cancellation.
    pub new_client_order_id: Option<String>,
    /// Whether `build` has checked the parameters.
    pub state: S,
}

impl<S> CancelOrderListSpec<S> {
    /// `self` and `other` hold the same parameters.
    pub open spec fn same_parameters<T>(&self, other: &CancelOrderListSpec<T>) -> bool {
        &&& self.symbol == other.symbol
        &&& self.order_list_id == other.order_list_id
        &&& self.list_client_order_id == other.list_client_order_id
        &&& self.new_client_order_id == other.new_client_order_id
    }

    /// The symbol may not be blank; the list is named by exactly one of its ID
    /// and its client ID; and client IDs given are not blank.
    pub open spec fn validation(&self) -> Result<(), InvalidParameter> {
        if blank(self.symbol@) {
            Err(InvalidParameter::Empty { parameter: "symbol" })
        } else if self.order_list_id is None && self.list_client_order_id is None {
            Err(InvalidParameter::Required { parameter: "order_list_id or list_client_order_id" })
        } else if self.order_list_id is Some && self.list_client_order_id is Some {
            Err(
                InvalidParameter::MutuallyExclusive {
                    first: "order_list_id",
                    second: "list_client_order_id",
                },
            )
        } else if self.list_client_order_id matches Some(id) && blank(id@) {
            Err(InvalidParameter::Empty { parameter: "list_client_order_id" })
        } else if self.new_client_order_id matches Some(id) && blank(id@) {
            Err(InvalidParameter::Empty { parameter: "new_client_order_id" })
        } else {
            Ok(())
        }
    }
}

impl CancelOrderListSpec<Unvalidated> {
    /// The request for `symbol`, with no other parameter.
    pub fn new(symbol: &str) -> (r: Self)
        ensures
            r.symbol@ == symbol@,
            r.order_list_id is None,
            r.list_client_order_id is None,
            r.new_client_order_id is None,
    {
        CancelOrderListSpec {
            symbol: symbol.to_owned(),
            order_list_id: None,
            list_client_order_id: None,
            new_client_order_id: None,
            state: Unvalidated,
        }
    }

    /// Names the order list by ID.
    pub fn with_order_list_id(self, order_list_id: u64) -> (r: Self)
        ensures
            r == (CancelOrderListSpec { order_list_id: Some(order_list_id), ..self }),
    {
        CancelOrderListSpec { order_list_id: Some(order_list_id), ..self }
    }

    /// Names the order list by client ID.
    pub fn with_list_client_order_id(self, list_client_order_id: &str) -> (r: Self)
        ensures
            r == (CancelOrderListSpec { list_client_order_id: r.list_client_order_id, ..self }),
            r.list_client_order_id matches Some(v) && v@ == list_client_order_id@,
    {
        CancelOrderListSpec { list_client_order_id: Some(list_client_order_id.to_owned()), ..self }
    }

    /// Sets the client ID of the cancellation.
    pub fn with_new_client_order_id(self, new_client_order_id: &str) -> (r: Self)
        ensures
            r == (CancelOrderListSpec { new_client_order_id: r.new_client_order_id, ..self }),
            r.new_client_order_id matches Some(v) && v@ == new_client_order_id@,
    {
        CancelOrderListSpec { new_client_order_id: Some(new_client_order_id.to_owned()), ..self }
    }

    /// Checks the parameters as `validation` states; on success the
    /// same parameters come back as a validated specification.
    pub fn build(self) -> (r: Result<CancelOrderListSpec<Validated>, InvalidParameter>)
        ensures
            match self.validation() {
                Ok(_) => r matches Ok(v) && self.same_parameters(&v),
                Err(e) => r == Err::<CancelOrderListSpec<Validated>, InvalidParameter>(e),
            },
            r matches Ok(v) ==> v.validation() is Ok,
    {
        if let Err(e) = self.validate() {
            return Err(e);
        }
        Ok(CancelOrderListSpec {
            symbol: self.symbol,
            order_list_id: self.order_list_id,
            list_client_order_id: self.list_client_order_id,
            new_client_order_id: self.new_client_order_id,
            state: Validated,
        })
    }

    fn validate(&self) -> (r: Result<(), InvalidParameter>)
        ensures
            r == self.validation(),
    {
        if is_blank(self.symbol.as_str()) {
            return Err(InvalidParameter::Empty { parameter: "symbol" });
        }
        if self.order_list_id.is_none() && self.list_client_order_id.is_none() {
            return Err(
                InvalidParameter::Required {
                    parameter: "order_list_id or list_client_order_id",
                },
            );
        }
        if self.order_list_id.is_some() && self.list_client_order_id.is_some() {
            return Err(
                InvalidParameter::MutuallyExclusive {
                    first: "order_list_id",
                    second: "list_client_order_id",
                },
            );
        }
        if let Some(id) = &self.list_client_order_id {
            if is_blank(id.as_str()) {
                return Err(InvalidParameter::Empty { parameter: "list_client_order_id" });
            }
        }
        if let Some(id) = &self.new_client_order_id {
            if is_blank(id.as_str()) {
                return Err(InvalidParameter::Empty { parameter: "new_client_order_id" });
            }
        }
        Ok(())
    }
}

} // verus!
