use vstd::prelude::*;

use super::common::{
    check_symbols, optional_symbol_validation, optional_symbols_validation, symbol_list_validation,
    to_strings, Unvalidated, Validated,
};
use crate::errors::InvalidParameter;
use crate::json::{json_parsed_string_array, json_string_array, to_json_string_array};
use crate::text::is_blank;

verus! {

/// The parameters of a query for the latest price of one trading pair,
/// several, or (with neither) all of them.
#[derive(Debug, Clone)]
pub struct TickerPriceSpec<S = Unvalidated> {
    /// A single trading pair.
    pub symbol: Option<String>,
    /// Several trading pairs, as a JSON array of symbols.
    pub symbols: Option<String>,
    /// Whether `build` has checked the parameters.
    pub state: S,
}

impl<S> TickerPriceSpec<S> {
    /// `self` and `other` hold the same parameters.
    pub open spec fn same_parameters<T>(&self, other: &TickerPriceSpec<T>) -> bool {
        &&& self.symbol == other.symbol
        &&& self.symbols == other.symbols
    }

    /// A symbol given is not blank; `symbols` passes `symbols_validation`; and
    /// `symbol` and `symbols` exclude each other.
    pub open spec fn validation(&self) -> Result<(), InvalidParameter> {
        if optional_symbol_validation(self.symbol) is Err {
            optional_symbol_validation(self.symbol)
        } else if optional_symbols_validation(self.symbols, false) is Err {
            optional_symbols_validation(self.symbols, false)
        } else if self.symbol is Some && self.symbols is Some {
            Err(InvalidParameter::MutuallyExclusive { first: "symbol", second: "symbols" })
        } else {
            Ok(())
        }
    }
}

impl TickerPriceSpec<Unvalidated> {
    /// The query with no parameter (all trading pairs).
    pub fn new() -> (r: Self)
        ensures
            r.symbol is None,
            r.symbols is None,
    {
        TickerPriceSpec {
            symbol: None,
            symbols: None,
            state: Unvalidated,
        }
    }

    /// Asks about one trading pair.
    pub fn with_symbol(self, symbol: &str) -> (r: Self)
        ensures
            r == (TickerPriceSpec { symbol: r.symbol, ..self }),
            r.symbol matches Some(v) && v@ == symbol@,
    {
        TickerPriceSpec { symbol: Some(symbol.to_owned()), ..self }
    }

    /// Asks about several trading pairs; they are written as a JSON array.
    pub fn with_symbols(self, symbols: Vec<&str>) -> (r: Self)
        ensures
            r == (TickerPriceSpec { symbols: r.symbols, ..self }),
            r.symbols matches Some(v) && v@ == json_string_array(symbols.deep_view()),
            r.symbols matches Some(v) && json_parsed_string_array(v@) == Some(symbols.deep_view()),
            optional_symbols_validation(r.symbols, false) == symbol_list_validation(
                Some(symbols.deep_view()),
                false,
            ),
    {
        let list = to_strings(&symbols);
        TickerPriceSpec { symbols: Some(to_json_string_array(&list)), ..self }
    }

    /// Checks the parameters as `validation` states; on success the
    /// same parameters come back as a validated specification.
    pub fn build(self) -> (r: Result<TickerPriceSpec<Validated>, InvalidParameter>)
        ensures
            match self.validation() {
                Ok(_) => r matches Ok(v) && self.same_parameters(&v),
                Err(e) => r == Err::<TickerPriceSpec<Validated>, InvalidParameter>(e),
            },
            r matches Ok(v) ==> v.validation() is Ok,
    {
        if let Err(e) = self.validate() {
            return Err(e);
        }
        Ok(TickerPriceSpec {
            symbol: self.symbol,
            symbols: self.symbols,
            state: Validated,
        })
    }

    fn validate(&self) -> (r: Result<(), InvalidParameter>)
        ensures
            r == self.validation(),
    {
        if let Some(s) = &self.symbol {
            if is_blank(s.as_str()) {
                return Err(InvalidParameter::Empty { parameter: "symbol" });
            }
        }
        if let Some(json) = &self.symbols {
            if let Err(e) = check_symbols(json.as_str(), false) {
                return Err(e);
            }
        }
        if self.symbol.is_some() && self.symbols.is_some() {
            return Err(InvalidParameter::MutuallyExclusive { first: "symbol", second: "symbols" });
        }
        Ok(())
    }
}

} // verus!
