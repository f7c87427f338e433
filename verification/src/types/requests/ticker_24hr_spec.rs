use vstd::prelude::*;

use super::common::{
    check_symbols, check_ticker_type, is_ticker_type, optional_symbol_validation,
    optional_symbols_validation, symbol_list_validation, to_strings, Unvalidated, Validated,
};
use crate::errors::InvalidParameter;
use crate::json::{json_parsed_string_array, json_string_array, to_json_string_array};
use crate::text::is_blank;

verus! {

/// The parameters of a query for the 24-hour price change statistics of one
/// trading pair, several, or (with neither) all of them.
#[derive(Debug, Clone)]
pub struct Ticker24HrSpec<S = Unvalidated> {
    /// A single trading pair.
    pub symbol: Option<String>,
    /// Several trading pairs, as a JSON array of symbols.
    pub symbols: Option<String>,
    /// `FULL` or `MINI`.
    pub ticker_type: Option<String>,
    /// Whether `build` has checked the parameters.
    pub state: S,
}

impl<S> Ticker24HrSpec<S> {
    /// `self` and `other` hold the same parameters.
    pub open spec fn same_parameters<T>(&self, other: &Ticker24HrSpec<T>) -> bool {
        &&& self.symbol == other.symbol
        &&& self.symbols == other.symbols
        &&& self.ticker_type == other.ticker_type
    }

    /// A symbol given is not blank; `symbols` passes `symbols_validation`; a ticker
    /// type is `FULL` or `MINI`; and `symbol` and `symbols` exclude each other.
    pub open spec fn validation(&self) -> Result<(), InvalidParameter> {
        if optional_symbol_validation(self.symbol) is Err {
            optional_symbol_validation(self.symbol)
        } else if optional_symbols_validation(self.symbols, false) is Err {
            optional_symbols_validation(self.symbols, false)
        } else if self.ticker_type matches Some(t) && !is_ticker_type(t@) {
            Err(
                InvalidParameter::Invalid {
                    parameter: "ticker_type",
                    reason: "must be either FULL or MINI",
                },
            )
        } else if self.symbol is Some && self.symbols is Some {
            Err(InvalidParameter::MutuallyExclusive { first: "symbol", second: "symbols" })
        } else {
            Ok(())
        }
    }
}

impl Ticker24HrSpec<Unvalidated> {
    /// The query with no parameter (all trading pairs).
    pub fn new() -> (r: Self)
        ensures
            r.symbol is None,
            r.symbols is None,
            r.ticker_type is None,
    {
        Ticker24HrSpec {
            symbol: None,
            symbols: None,
            ticker_type: None,
            state: Unvalidated,
        }
    }

    /// Asks about one trading pair.
    pub fn with_symbol(self, symbol: &str) -> (r: Self)
        ensures
            r == (Ticker24HrSpec { symbol: r.symbol, ..self }),
            r.symbol matches Some(v) && v@ == symbol@,
    {
        Ticker24HrSpec { symbol: Some(symbol.to_owned()), ..self }
    }

    /// Asks about several trading pairs; they are written as a JSON array.
    pub fn with_symbols(self, symbols: Vec<&str>) -> (r: Self)
        ensures
            r == (Ticker24HrSpec { symbols: r.symbols, ..self }),
            r.symbols matches Some(v) && v@ == json_string_array(symbols.deep_view()),
            r.symbols matches Some(v) && json_parsed_string_array(v@) == Some(symbols.deep_view()),
            optional_symbols_validation(r.symbols, false) == symbol_list_validation(
                Some(symbols.deep_view()),
                false,
            ),
    {
        let list = to_strings(&symbols);
        Ticker24HrSpec { symbols: Some(to_json_string_array(&list)), ..self }
    }

    /// Sets the kind of ticker.
    pub fn with_ticker_type(self, ticker_type: &str) -> (r: Self)
        ensures
            r == (Ticker24HrSpec { ticker_type: r.ticker_type, ..self }),
            r.ticker_type matches Some(v) && v@ == ticker_type@,
    {
        Ticker24HrSpec { ticker_type: Some(ticker_type.to_owned()), ..self }
    }

    /// Checks the parameters as `validation` states; on success the
    /// same parameters come back as a validated specification.
    pub fn build(self) -> (r: Result<Ticker24HrSpec<Validated>, InvalidParameter>)
        ensures
            match self.validation() {
                Ok(_) => r matches Ok(v) && self.same_parameters(&v),
                Err(e) => r == Err::<Ticker24HrSpec<Validated>, InvalidParameter>(e),
            },
            r matches Ok(v) ==> v.validation() is Ok,
    {
        if let Err(e) = self.validate() {
            return Err(e);
        }
        Ok(Ticker24HrSpec {
            symbol: self.symbol,
            symbols: self.symbols,
            ticker_type: self.ticker_type,
            state: Validated,
        })
    }

    fn validate(&self) -> (r: Result<(), InvalidParameter>)
        ensures
            r == self.validation(),
    {
        if let Some(s) = &self.symbol {
            if is_blank(s.as_str()) {
                return Err(InvalidParameter::Empty { parameter: "symbol" });
            }
        }
        if let Some(json) = &self.symbols {
            if let Err(e) = check_symbols(json.as_str(), false) {
                return Err(e);
            }
        }
        if let Some(t) = &self.ticker_type {
            if !check_ticker_type(t.as_str()) {
                return Err(
                    InvalidParameter::Invalid {
                        parameter: "ticker_type",
                        reason: "must be either FULL or MINI",
                    },
                );
            }
        }
        if self.symbol.is_some() && self.symbols.is_some() {
            return Err(InvalidParameter::MutuallyExclusive { first: "symbol", second: "symbols" });
        }
        Ok(())
    }
}

} // verus!
