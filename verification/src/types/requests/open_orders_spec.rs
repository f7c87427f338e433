use vstd::prelude::*;

use super::common::{Unvalidated, Validated};
use crate::errors::InvalidParameter;
use crate::text::{blank, is_blank};

verus! {

/// The parameters of a query for the open orders of the account, on one
/// trading pair or (without a symbol) on all of them.
#[derive(Debug, Clone)]
pub struct OpenOrdersSpec<S = Unvalidated> {
    /// The trading pair; all pairs where absent.
    pub symbol: Option<String>,
    /// Whether `build` has checked the parameters.
    pub state: S,
}

impl<S> OpenOrdersSpec<S> {
    /// `self` and `other` hold the same parameters.
    pub open spec fn same_parameters<T>(&self, other: &OpenOrdersSpec<T>) -> bool {
        &&& self.symbol == other.symbol
    }

    /// A symbol given is not blank.
    pub open spec fn validation(&self) -> Result<(), InvalidParameter> {
        if self.symbol matches Some(s) && blank(s@) {
            Err(InvalidParameter::Empty { parameter: "symbol" })
        } else {
            Ok(())
        }
    }
}

impl OpenOrdersSpec<Unvalidated> {
    /// The query with no parameter (all trading pairs).
    pub fn new() -> (r: Self)
        ensures
            r.symbol is None,
    {
        OpenOrdersSpec {
            symbol: None,
            state: Unvalidated,
        }
    }

    /// Asks about one trading pair.
    pub fn with_symbol(self, symbol: &str) -> (r: Self)
        ensures
            r == (OpenOrdersSpec { symbol: r.symbol, ..self }),
            r.symbol matches Some(v) && v@ == symbol@,
    {
        OpenOrdersSpec { symbol: Some(symbol.to_owned()), ..self }
    }

    /// Checks the parameters as `validation` states; on success the
    /// same parameters come back as a validated specification.
    pub fn build(self) -> (r: Result<OpenOrdersSpec<Validated>, InvalidParameter>)
        ensures
            match self.validation() {
                Ok(_) => r matches Ok(v) && self.same_parameters(&v),
                Err(e) => r == Err::<OpenOrdersSpec<Validated>, InvalidParameter>(e),
            },
            r matches Ok(v) ==> v.validation() is Ok,
    {
        if let Err(e) = self.validate() {
            return Err(e);
        }
        Ok(OpenOrdersSpec {
            symbol: self.symbol,
            state: Validated,
        })
    }

    fn validate(&self) -> (r: Result<(), InvalidParameter>)
        ensures
            r == self.validation(),
    {
        if let Some(s) = &self.symbol {
            if is_blank(s.as_str()) {
                return Err(InvalidParameter::Empty { parameter: "symbol" });
            }
        }
        Ok(())
    }
}

impl Default for OpenOrdersSpec<Unvalidated> {
    fn default() -> (r: Self)
        ensures
            r.symbol is None,
    {
        Self::new()
    }
}

} // verus!
