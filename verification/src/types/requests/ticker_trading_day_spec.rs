use vstd::prelude::*;

use super::common::{
    check_symbols, check_ticker_type, check_time_zone, is_ticker_type, optional_symbol_validation,
    optional_symbols_validation, optional_time_zone_validation, symbol_list_validation, to_strings,
    Unvalidated, Validated,
};
use crate::errors::InvalidParameter;
use crate::json::{json_parsed_string_array, json_string_array, to_json_string_array};
use crate::text::is_blank;

verus! {

/// The parameters of a query for the price change statistics of one or
/// several trading pairs over the current trading day.
#[derive(Debug, Clone)]
pub struct TickerTradingDaySpec<S = Unvalidated> {
    /// A single trading pair.
    pub symbol: Option<String>,
    /// Several trading pairs (at most 100), as a JSON array of symbols.
    pub symbols: Option<String>,
    /// The time zone of the trading day, as hours or `hours:minutes` (default `0`).
    pub time_zone: Option<String>,
    /// `FULL` or `MINI`.
    pub ticker_type: Option<String>,
    /// Whether `build` has checked the parameters.
    pub state: S,
}

impl<S> TickerTradingDaySpec<S> {
    /// `self` and `other` hold the same parameters.
    pub open spec fn same_parameters<T>(&self, other: &TickerTradingDaySpec<T>) -> bool {
        &&& self.symbol == other.symbol
        &&& self.symbols == other.symbols
        &&& self.time_zone == other.time_zone
        &&& self.ticker_type == other.ticker_type
    }

    /// `symbol` or `symbols` is given, a symbol is not blank, `symbols` passes
    /// `symbols_validation` with at most 100 symbols, a time zone passes
    /// `time_zone_validation`, a ticker type is `FULL` or `MINI`, and `symbol` and
    /// `symbols` exclude each other.
    pub open spec fn validation(&self) -> Result<(), InvalidParameter> {
        if self.symbol is None && self.symbols is None {
            Err(
                InvalidParameter::Invalid {
                    parameter: "symbol or symbols",
                    reason: "must be specified",
                },
            )
        } else if optional_symbol_validation(self.symbol) is Err {
            optional_symbol_validation(self.symbol)
        } else if optional_symbols_validation(self.symbols, true) is Err {
            optional_symbols_validation(self.symbols, true)
        } else if optional_time_zone_validation(self.time_zone) is Err {
            optional_time_zone_validation(self.time_zone)
        } else if self.ticker_type matches Some(t) && !is_ticker_type(t@) {
            Err(
                InvalidParameter::Invalid {
                    parameter: "ticker_type",
                    reason: "must be either FULL or MINI",
                },
            )
        } else if self.symbol is Some && self.symbols is Some {
            Err(InvalidParameter::MutuallyExclusive { first: "symbol", second: "symbols" })
        } else {
            Ok(())
        }
    }
}

impl TickerTradingDaySpec<Unvalidated> {
    /// The query with no parameter.
    pub fn new() -> (r: Self)
        ensures
            r.symbol is None,
            r.symbols is None,
            r.time_zone is None,
            r.ticker_type is None,
    {
        TickerTradingDaySpec {
            symbol: None,
            symbols: None,
            time_zone: None,
            ticker_type: None,
            state: Unvalidated,
        }
    }

    /// Asks about one trading pair.
    pub fn with_symbol(self, symbol: &str) -> (r: Self)
        ensures
            r == (TickerTradingDaySpec { symbol: r.symbol, ..self }),
            r.symbol matches Some(v) && v@ == symbol@,
    {
        TickerTradingDaySpec { symbol: Some(symbol.to_owned()), ..self }
    }

    /// Asks about several trading pairs; they are written as a JSON array.
    pub fn with_symbols(self, symbols: Vec<&str>) -> (r: Self)
        ensures
            r == (TickerTradingDaySpec { symbols: r.symbols, ..self }),
            r.symbols matches Some(v) && v@ == json_string_array(symbols.deep_view()),
            r.symbols matches Some(v) && json_parsed_string_array(v@) == Some(symbols.deep_view()),
            optional_symbols_validation(r.symbols, true) == symbol_list_validation(
                Some(symbols.deep_view()),
                true,
            ),
    {
        let list = to_strings(&symbols);
        TickerTradingDaySpec { symbols: Some(to_json_string_array(&list)), ..self }
    }

    /// Sets the time zone.
    pub fn with_time_zone(self, time_zone: &str) -> (r: Self)
        ensures
            r == (TickerTradingDaySpec { time_zone: r.time_zone, ..self }),
            r.time_zone matches Some(v) && v@ == time_zone@,
    {
        TickerTradingDaySpec { time_zone: Some(time_zone.to_owned()), ..self }
    }

    /// Sets the kind of ticker.
    pub fn with_ticker_type(self, ticker_type: &str) -> (r: Self)
        ensures
            r == (TickerTradingDaySpec { ticker_type: r.ticker_type, ..self }),
            r.ticker_type matches Some(v) && v@ == ticker_type@,
    {
        TickerTradingDaySpec { ticker_type: Some(ticker_type.to_owned()), ..self }
    }

    /// Checks the parameters as `validation` states; on success the
    /// same parameters come back as a validated specification.
    pub fn build(self) -> (r: Result<TickerTradingDaySpec<Validated>, InvalidParameter>)
        ensures
            match self.validation() {
                Ok(_) => r matches Ok(v) && self.same_parameters(&v),
                Err(e) => r == Err::<TickerTradingDaySpec<Validated>, InvalidParameter>(e),
            },
            r matches Ok(v) ==> v.validation() is Ok,
    {
        if let Err(e) = self.validate() {
            return Err(e);
        }
        Ok(TickerTradingDaySpec {
            symbol: self.symbol,
            symbols: self.symbols,
            time_zone: self.time_zone,
            ticker_type: self.ticker_type,
            state: Validated,
        })
    }

    fn validate(&self) -> (r: Result<(), InvalidParameter>)
        ensures
            r == self.validation(),
    {
        if self.symbol.is_none() && self.symbols.is_none() {
            return Err(
                InvalidParameter::Invalid {
                    parameter: "symbol or symbols",
                    reason: "must be specified",
                },
            );
        }
        if let Some(s) = &self.symbol {
            if is_blank(s.as_str()) {
                return Err(InvalidParameter::Empty { parameter: "symbol" });
            }
        }
        if let Some(json) = &self.symbols {
            if let Err(e) = check_symbols(json.as_str(), true) {
                return Err(e);
            }
        }
        if let Some(tz) = &self.time_zone {
            if let Err(e) = check_time_zone(tz.as_str()) {
                return Err(e);
            }
        }
        if let Some(t) = &self.ticker_type {
            if !check_ticker_type(t.as_str()) {
                return Err(
                    InvalidParameter::Invalid {
                        parameter: "ticker_type",
                        reason: "must be either FULL or MINI",
                    },
                );
            }
        }
        if self.symbol.is_some() && self.symbols.is_some() {
            return Err(InvalidParameter::MutuallyExclusive { first: "symbol", second: "symbols" });
        }
        Ok(())
    }
}

} // verus!
