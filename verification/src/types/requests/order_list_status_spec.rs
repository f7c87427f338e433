use vstd::prelude::*;

use super::common::{Unvalidated, Validated};
use crate::errors::InvalidParameter;
use crate::text::{blank, is_blank};

verus! {

/// The parameters of a query for the status of one order list.
#[derive(Debug, Clone)]
pub struct OrderListStatusSpec<S = Unvalidated> {
    /// The ID of the order list.
    pub order_list_id: Option<u64>,
    /// The client ID of the order list.
    pub original_client_order_id: Option<String>,
    /// Whether `build` has checked the parameters.
    pub state: S,
}

impl<S> OrderListStatusSpec<S> {
    /// `self` and `other` hold the same parameters.
    pub open spec fn same_parameters<T>(&self, other: &OrderListStatusSpec<T>) -> bool {
        &&& self.order_list_id == other.order_list_id
        &&& self.original_client_order_id == other.original_client_order_id
    }

    /// The list is named by exactly one of its ID and its client ID, which may not
    /// be blank.
    pub open spec fn validation(&self) -> Result<(), InvalidParameter> {
        if self.order_list_id is None && self.original_client_order_id is None {
            Err(
                InvalidParameter::Required {
                    parameter: "order_list_id or original_client_order_id",
                },
            )
        } else if self.order_list_id is Some && self.original_client_order_id is Some {
            Err(
                InvalidParameter::MutuallyExclusive {
                    first: "order_list_id",
                    second: "original_client_order_id",
                },
            )
        } else if self.original_client_order_id matches Some(id) && blank(id@) {
            Err(InvalidParameter::Empty { parameter: "original_client_order_id" })
        } else {
            Ok(())
        }
    }
}

impl OrderListStatusSpec<Unvalidated> {
    /// The query with no parameter.
    pub fn new() -> (r: Self)
        ensures
            r.order_list_id is None,
            r.original_client_order_id is None,
    {
        OrderListStatusSpec {
            order_list_id: None,
            original_client_order_id: None,
            state: Unvalidated,
        }
    }

    /// Names the order list by ID.
    pub fn with_order_list_id(self, order_list_id: u64) -> (r: Self)
        ensures
            r == (OrderListStatusSpec { order_list_id: Some(order_list_id), ..self }),
    {
        OrderListStatusSpec { order_list_id: Some(order_list_id), ..self }
    }

    /// Names the order list by client ID.
    pub fn with_original_client_order_id(self, original_client_order_id: &str) -> (r: Self)
        ensures
            r == (OrderListStatusSpec { original_client_order_id: r.original_client_order_id, ..self }),
            r.original_client_order_id matches Some(v) && v@ == original_client_order_id@,
    {
        OrderListStatusSpec { original_client_order_id: Some(original_client_order_id.to_owned()), ..self }
    }

    /// Checks the parameters as `validation` states; on success the
    /// same parameters come back as a validated specification.
    pub fn build(self) -> (r: Result<OrderListStatusSpec<Validated>, InvalidParameter>)
        ensures
            match self.validation() {
                Ok(_) => r matches Ok(v) && self.same_parameters(&v),
                Err(e) => r == Err::<OrderListStatusSpec<Validated>, InvalidParameter>(e),
            },
            r matches Ok(v) ==> v.validation() is Ok,
    {
        if let Err(e) = self.validate() {
            return Err(e);
        }
        Ok(OrderListStatusSpec {
            order_list_id: self.order_list_id,
            original_client_order_id: self.original_client_order_id,
            state: Validated,
        })
    }

    fn validate(&self) -> (r: Result<(), InvalidParameter>)
        ensures
            r == self.validation(),
    {
        if self.order_list_id.is_none() && self.original_client_order_id.is_none() {
            return Err(
                InvalidParameter::Required {
                    parameter: "order_list_id or original_client_order_id",
                },
            );
        }
        if self.order_list_id.is_some() && self.original_client_order_id.is_some() {
            return Err(
                InvalidParameter::MutuallyExclusive {
                    first: "order_list_id",
                    second: "original_client_order_id",
                },
            );
        }
        if let Some(id) = &self.original_client_order_id {
            if is_blank(id.as_str()) {
                return Err(InvalidParameter::Empty { parameter: "original_client_order_id" });
            }
        }
        Ok(())
    }
}

impl Default for OrderListStatusSpec<Unvalidated> {
    fn default() -> (r: Self)
        ensures
            r.order_list_id is None,
            r.original_client_order_id is None,
    {
        Self::new()
    }
}

} // verus!
