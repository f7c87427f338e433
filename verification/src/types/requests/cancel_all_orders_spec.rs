use vstd::prelude::*;

use super::common::{Unvalidated, Validated};
use crate::errors::InvalidParameter;
use crate::text::{blank, is_blank};

verus! {

/// The parameters of a request that cancels all open orders on one trading pair.
#[derive(Debug, Clone)]
pub struct CancelAllOrdersSpec<S = Unvalidated> {
    /// The trading pair, such as "BTCUSDT".
    pub symbol: String,
    /// Whether `build` has checked the parameters.
    pub state: S,
}

impl<S> CancelAllOrdersSpec<S> {
    /// `self` and `other` hold the same parameters.
    pub open spec fn same_parameters<T>(&self, other: &CancelAllOrdersSpec<T>) -> bool {
        &&& self.symbol == other.symbol
    }

    /// The symbol may not be blank.
    pub open spec fn validation(&self) -> Result<(), InvalidParameter> {
        if blank(self.symbol@) {
            Err(InvalidParameter::Empty { parameter: "symbol" })
        } else {
            Ok(())
        }
    }
}

impl CancelAllOrdersSpec<Unvalidated> {
    /// The request for `symbol`.
    pub fn new(symbol: &str) -> (r: Self)
        ensures
            r.symbol@ == symbol@,
    {
        CancelAllOrdersSpec {
            symbol: symbol.to_owned(),
            state: Unvalidated,
        }
    }

    /// Checks the parameters as `validation` states; on success the
    /// same parameters come back as a validated specification.
    pub fn build(self) -> (r: Result<CancelAllOrdersSpec<Validated>, InvalidParameter>)
        ensures
            match self.validation() {
                Ok(_) => r matches Ok(v) && self.same_parameters(&v),
                Err(e) => r == Err::<CancelAllOrdersSpec<Validated>, InvalidParameter>(e),
            },
            r matches Ok(v) ==> v.validation() is Ok,
    {
        if let Err(e) = self.validate() {
            return Err(e);
        }
        Ok(CancelAllOrdersSpec {
            symbol: self.symbol,
            state: Validated,
        })
    }

    fn validate(&self) -> (r: Result<(), InvalidParameter>)
        ensures
            r == self.validation(),
    {
        if is_blank(self.symbol.as_str()) {
            return Err(InvalidParameter::Empty { parameter: "symbol" });
        }
        Ok(())
    }
}

} // verus!
