use vstd::prelude::*;

use super::common::{
    check_symbols, check_ticker_type, check_window_size, is_ticker_type, optional_symbol_validation,
    optional_symbols_validation, symbol_list_validation, to_strings, window_size_sliceable,
    window_size_validation, Unvalidated, Validated,
};
use crate::errors::InvalidParameter;
use crate::json::{json_parsed_string_array, json_string_array, to_json_string_array};
use crate::text::is_blank;

verus! {

/// The parameters of a query for the price change statistics of one or
/// several trading pairs over a rolling window.
#[derive(Debug, Clone)]
pub struct TickerRollingWindowSpec<S = Unvalidated> {
    /// A single trading pair.
    pub symbol: Option<String>,
    /// Several trading pairs, as a JSON array of symbols.
    pub symbols: Option<String>,
    /// The window, such as `1m`, `4h` or `7d` (default `1d`).
    pub window_size: Option<String>,
    /// `FULL` or `MINI`.
    pub ticker_type: Option<String>,
    /// Whether `build` has checked the parameters.
    pub state: S,
}

impl<S> TickerRollingWindowSpec<S> {
    /// `self` and `other` hold the same parameters.
    pub open spec fn same_parameters<T>(&self, other: &TickerRollingWindowSpec<T>) -> bool {
        &&& self.symbol == other.symbol
        &&& self.symbols == other.symbols
        &&& self.window_size == other.window_size
        &&& self.ticker_type == other.ticker_type
    }

    /// `symbol` or `symbols` is given, a symbol is not blank, `symbols` passes
    /// `symbols_validation`, a window size passes `window_size_validation`, a
    /// ticker type is `FULL` or `MINI`, and `symbol` and `symbols` exclude each
    /// other.
    pub open spec fn validation(&self) -> Result<(), InvalidParameter> {
        if self.symbol is None && self.symbols is None {
            Err(
                InvalidParameter::Invalid {
                    parameter: "symbol or symbols",
                    reason: "must be specified",
                },
            )
        } else if optional_symbol_validation(self.symbol) is Err {
            optional_symbol_validation(self.symbol)
        } else if optional_symbols_validation(self.symbols, false) is Err {
            optional_symbols_validation(self.symbols, false)
        } else if self.window_size matches Some(w) && window_size_validation(w@) is Err {
            window_size_validation(self.window_size->0@)
        } else if self.ticker_type matches Some(t) && !is_ticker_type(t@) {
            Err(
                InvalidParameter::Invalid {
                    parameter: "ticker_type",
                    reason: "must be either FULL or MINI",
                },
            )
        } else if self.symbol is Some && self.symbols is Some {
            Err(InvalidParameter::MutuallyExclusive { first: "symbol", second: "symbols" })
        } else {
            Ok(())
        }
    }
}

impl TickerRollingWindowSpec<Unvalidated> {
    /// The query with no parameter.
    pub fn new() -> (r: Self)
        ensures
            r.symbol is None,
            r.symbols is None,
            r.window_size is None,
            r.ticker_type is None,
    {
        TickerRollingWindowSpec {
            symbol: None,
            symbols: None,
            window_size: None,
            ticker_type: None,
            state: Unvalidated,
        }
    }

    /// Asks about one trading pair.
    pub fn with_symbol(self, symbol: &str) -> (r: Self)
        ensures
            r == (TickerRollingWindowSpec { symbol: r.symbol, ..self }),
            r.symbol matches Some(v) && v@ == symbol@,
    {
        TickerRollingWindowSpec { symbol: Some(symbol.to_owned()), ..self }
    }

    /// Asks about several trading pairs; they are written as a JSON array.
    pub fn with_symbols(self, symbols: Vec<&str>) -> (r: Self)
        ensures
            r == (TickerRollingWindowSpec { symbols: r.symbols, ..self }),
            r.symbols matches Some(v) && v@ == json_string_array(symbols.deep_view()),
            r.symbols matches Some(v) && json_parsed_string_array(v@) == Some(symbols.deep_view()),
            optional_symbols_validation(r.symbols, false) == symbol_list_validation(
                Some(symbols.deep_view()),
                false,
            ),
    {
        let list = to_strings(&symbols);
        TickerRollingWindowSpec { symbols: Some(to_json_string_array(&list)), ..self }
    }

    /// Sets the window.
    pub fn with_window_size(self, window_size: &str) -> (r: Self)
        ensures
            r == (TickerRollingWindowSpec { window_size: r.window_size, ..self }),
            r.window_size matches Some(v) && v@ == window_size@,
    {
        TickerRollingWindowSpec { window_size: Some(window_size.to_owned()), ..self }
    }

    /// Sets the kind of ticker.
    pub fn with_ticker_type(self, ticker_type: &str) -> (r: Self)
        ensures
            r == (TickerRollingWindowSpec { ticker_type: r.ticker_type, ..self }),
            r.ticker_type matches Some(v) && v@ == ticker_type@,
    {
        TickerRollingWindowSpec { ticker_type: Some(ticker_type.to_owned()), ..self }
    }

    /// Checks the parameters as `validation` states; on success the
    /// same parameters come back as a validated specification.
    pub fn build(self) -> (r: Result<TickerRollingWindowSpec<Validated>, InvalidParameter>)
        requires
            self.window_size matches Some(w) ==> window_size_sliceable(w@),
        ensures
            match self.validation() {
                Ok(_) => r matches Ok(v) && self.same_parameters(&v),
                Err(e) => r == Err::<TickerRollingWindowSpec<Validated>, InvalidParameter>(e),
            },
            r matches Ok(v) ==> v.validation() is Ok,
    {
        if let Err(e) = self.validate() {
            return Err(e);
        }
        Ok(TickerRollingWindowSpec {
            symbol: self.symbol,
            symbols: self.symbols,
            window_size: self.window_size,
            ticker_type: self.ticker_type,
            state: Validated,
        })
    }

    fn validate(&self) -> (r: Result<(), InvalidParameter>)
        requires
            self.window_size matches Some(w) ==> window_size_sliceable(w@),
        ensures
            r == self.validation(),
    {
        if self.symbol.is_none() && self.symbols.is_none() {
            return Err(
                InvalidParameter::Invalid {
                    parameter: "symbol or symbols",
                    reason: "must be specified",
                },
            );
        }
        if let Some(s) = &self.symbol {
            if is_blank(s.as_str()) {
                return Err(InvalidParameter::Empty { parameter: "symbol" });
            }
        }
        if let Some(json) = &self.symbols {
            if let Err(e) = check_symbols(json.as_str(), false) {
                return Err(e);
            }
        }
        if let Some(w) = &self.window_size {
            if let Err(e) = check_window_size(w.as_str()) {
                return Err(e);
            }
        }
        if let Some(t) = &self.ticker_type {
            if !check_ticker_type(t.as_str()) {
                return Err(
                    InvalidParameter::Invalid {
                        parameter: "ticker_type",
                        reason: "must be either FULL or MINI",
                    },
                );
            }
        }
        if self.symbol.is_some() && self.symbols.is_some() {
            return Err(InvalidParameter::MutuallyExclusive { first: "symbol", second: "symbols" });
        }
        Ok(())
    }
}

} // verus!
