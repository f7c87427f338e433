use vstd::prelude::*;

use super::common::{Unvalidated, Validated};
use crate::enums::CancelRestrictions;
use crate::errors::InvalidParameter;
use crate::text::{blank, is_blank};

verus! {

/// The parameters of a request that cancels an open order.
#[derive(Debug, Clone)]
pub struct CancelOrderSpec<S = Unvalidated> {
    /// The trading pair, such as "BTCUSDT".
    pub symbol: String,
    /// The ID of the order to cancel.
    pub order_id: Option<u64>,
    /// The client order ID of the order to cancel.
    pub original_client_order_id: Option<String>,
    /// A client-chosen ID for the cancellation.
    pub new_client_order_id: Option<String>,
    /// Which order statuses may be cancelled.
    pub cancel_restrictions: Option<CancelRestrictions>,
    /// Whether `build` has checked the parameters.
    pub state: S,
}

impl<S> CancelOrderSpec<S> {
    /// `self` and `other` hold the same parameters.
    pub open spec fn same_parameters<T>(&self, other: &CancelOrderSpec<T>) -> bool {
        &&& self.symbol == other.symbol
        &&& self.order_id == other.order_id
        &&& self.original_client_order_id == other.original_client_order_id
        &&& self.new_client_order_id == other.new_client_order_id
        &&& self.cancel_restrictions == other.cancel_restrictions
    }

    /// The symbol may not be blank and the order is named by ID or client order ID.
    pub open spec fn validation(&self) -> Result<(), InvalidParameter> {
        if blank(self.symbol@) {
            Err(InvalidParameter::Empty { parameter: "symbol" })
        } else if self.order_id is None && self.original_client_order_id is None {
            Err(InvalidParameter::Required { parameter: "orderId or origClientOrderId" })
        } else {
            Ok(())
        }
    }
}

impl CancelOrderSpec<Unvalidated> {
    /// The request for `symbol`, with no other parameter.
    pub fn new(symbol: &str) -> (r: Self)
        ensures
            r.symbol@ == symbol@,
            r.order_id is None,
            r.original_client_order_id is None,
            r.new_client_order_id is None,
            r.cancel_restrictions is None,
    {
        CancelOrderSpec {
            symbol: symbol.to_owned(),
            order_id: None,
            original_client_order_id: None,
            new_client_order_id: None,
            cancel_restrictions: None,
            state: Unvalidated,
        }
    }

    /// Names the order by ID.
    pub fn with_order_id(self, order_id: u64) -> (r: Self)
        ensures
            r == (CancelOrderSpec { order_id: Some(order_id), ..self }),
    {
        CancelOrderSpec { order_id: Some(order_id), ..self }
    }

    /// Names the order by client order ID.
    pub fn with_original_client_order_id(self, original_id: &str) -> (r: Self)
        ensures
            r == (CancelOrderSpec { original_client_order_id: r.original_client_order_id, ..self }),
            r.original_client_order_id matches Some(v) && v@ == original_id@,
    {
        CancelOrderSpec { original_client_order_id: Some(original_id.to_owned()), ..self }
    }

    /// Sets the client ID of the cancellation.
    pub fn with_new_client_order_id(self, new_id: &str) -> (r: Self)
        ensures
            r == (CancelOrderSpec { new_client_order_id: r.new_client_order_id, ..self }),
            r.new_client_order_id matches Some(v) && v@ == new_id@,
    {
        CancelOrderSpec { new_client_order_id: Some(new_id.to_owned()), ..self }
    }

    /// Sets which order statuses may be cancelled.
    pub fn with_cancel_restrictions(self, cancel_restrictions: CancelRestrictions) -> (r: Self)
        ensures
            r == (CancelOrderSpec { cancel_restrictions: Some(cancel_restrictions), ..self }),
    {
        CancelOrderSpec { cancel_restrictions: Some(cancel_restrictions), ..self }
    }

    /// Checks the parameters as `validation` states; on success the
    /// same parameters come back as a validated specification.
    pub fn build(self) -> (r: Result<CancelOrderSpec<Validated>, InvalidParameter>)
        ensures
            match self.validation() {
                Ok(_) => r matches Ok(v) && self.same_parameters(&v),
                Err(e) => r == Err::<CancelOrderSpec<Validated>, InvalidParameter>(e),
            },
            r matches Ok(v) ==> v.validation() is Ok,
    {
        if let Err(e) = self.validate() {
            return Err(e);
        }
        Ok(CancelOrderSpec {
            symbol: self.symbol,
            order_id: self.order_id,
            original_client_order_id: self.original_client_order_id,
            new_client_order_id: self.new_client_order_id,
            cancel_restrictions: self.cancel_restrictions,
            state: Validated,
        })
    }

    fn validate(&self) -> (r: Result<(), InvalidParameter>)
        ensures
            r == self.validation(),
    {
        if is_blank(self.symbol.as_str()) {
            return Err(InvalidParameter::Empty { parameter: "symbol" });
        }
        if self.order_id.is_none() && self.original_client_order_id.is_none() {
            return Err(InvalidParameter::Required { parameter: "orderId or origClientOrderId" });
        }
        Ok(())
    }
}

} // verus!
