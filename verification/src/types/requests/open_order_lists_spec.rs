use vstd::prelude::*;

use super::common::{Unvalidated, Validated};
use crate::errors::InvalidParameter;

verus! {

/// The parameters of a query for the open order lists of the account; it has
/// none.
#[derive(Debug, Clone)]
pub struct OpenOrderListsSpec<S = Unvalidated> {
    /// Whether `build` has checked the parameters.
    pub state: S,
}

impl<S> OpenOrderListsSpec<S> {
    /// `self` and `other` hold the same parameters.
    pub open spec fn same_parameters<T>(&self, other: &OpenOrderListsSpec<T>) -> bool {
        true
    }

    /// There is nothing to check.
    pub open spec fn validation(&self) -> Result<(), InvalidParameter> {
        Ok(())
    }
}

impl OpenOrderListsSpec<Unvalidated> {
    /// The query.
    pub fn new() -> (r: Self)
        ensures
            r.state == Unvalidated,
    {
        OpenOrderListsSpec {
            state: Unvalidated,
        }
    }

    /// Checks the parameters as `validation` states; on success the
    /// same parameters come back as a validated specification.
    pub fn build(self) -> (r: Result<OpenOrderListsSpec<Validated>, InvalidParameter>)
        ensures
            match self.validation() {
                Ok(_) => r matches Ok(v) && self.same_parameters(&v),
                Err(e) => r == Err::<OpenOrderListsSpec<Validated>, InvalidParameter>(e),
            },
            r matches Ok(v) ==> v.validation() is Ok,
    {
        Ok(OpenOrderListsSpec {
            state: Validated,
        })
    }
}

impl Default for OpenOrderListsSpec<Unvalidated> {
    fn default() -> (r: Self)
        ensures
            r.state == Unvalidated,
    {
        Self::new()
    }
}

} // verus!
