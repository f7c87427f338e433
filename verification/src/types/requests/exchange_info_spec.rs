use vstd::prelude::*;

use super::common::{
    check_symbols, optional_symbol_validation, optional_symbols_validation, symbol_list_validation,
    to_strings, Unvalidated, Validated,
};
use crate::errors::InvalidParameter;
use crate::json::{json_parsed_string_array, json_string_array, to_json_string_array};
use crate::text::{is_blank, text_equals};

verus! {

/// The parameters of a query for the trading rules and symbol information of
/// the exchange: for one trading pair, several, or those with given
/// permissions or status.
#[derive(Debug, Clone)]
pub struct ExchangeInfoSpec<S = Unvalidated> {
    /// A single trading pair.
    pub symbol: Option<String>,
    /// Several trading pairs, as a JSON array of symbols.
    pub symbols: Option<String>,
    /// The permissions that the listed pairs must have, such as `SPOT`.
    pub permissions: Option<Vec<String>>,
    /// Whether the permission sets are listed.
    pub show_permission_sets: Option<bool>,
    /// `TRADING`, `HALT` or `BREAK`: only pairs with that status.
    pub symbol_status: Option<String>,
    /// Whether `build` has checked the parameters.
    pub state: S,
}

impl<S> ExchangeInfoSpec<S> {
    /// `self` and `other` hold the same parameters.
    pub open spec fn same_parameters<T>(&self, other: &ExchangeInfoSpec<T>) -> bool {
        &&& self.symbol == other.symbol
        &&& self.symbols == other.symbols
        &&& self.permissions == other.permissions
        &&& self.show_permission_sets == other.show_permission_sets
        &&& self.symbol_status == other.symbol_status
    }

    /// A symbol given is not blank; `symbols` passes `symbols_validation`; a symbol
    /// status is `TRADING`, `HALT` or `BREAK`; `symbol` and `symbols` exclude
    /// each other; and a status or permissions exclude both of them.
    pub open spec fn validation(&self) -> Result<(), InvalidParameter> {
        if optional_symbol_validation(self.symbol) is Err {
            optional_symbol_validation(self.symbol)
        } else if optional_symbols_validation(self.symbols, false) is Err {
            optional_symbols_validation(self.symbols, false)
        } else if self.symbol_status matches Some(st) && !is_symbol_status(st@) {
            Err(
                InvalidParameter::Invalid {
                    parameter: "symbol_status",
                    reason: "must be one of: TRADING, HALT, BREAK",
                },
            )
        } else if self.symbol is Some && self.symbols is Some {
            Err(InvalidParameter::MutuallyExclusive { first: "symbol", second: "symbols" })
        } else if self.symbol_status is Some && (self.symbol is Some || self.symbols is Some) {
            Err(
                InvalidParameter::Invalid {
                    parameter: "symbolStatus",
                    reason: "cannot be used with 'symbol' or 'symbols' parameters",
                },
            )
        } else if self.permissions is Some && (self.symbol is Some || self.symbols is Some) {
            Err(
                InvalidParameter::MutuallyExclusive {
                    first: "permissions",
                    second: "symbol/symbols",
                },
            )
        } else {
            Ok(())
        }
    }
}

impl ExchangeInfoSpec<Unvalidated> {
    /// The query with no parameter (the whole exchange).
    pub fn new() -> (r: Self)
        ensures
            r.symbol is None,
            r.symbols is None,
            r.permissions is None,
            r.show_permission_sets is None,
            r.symbol_status is None,
    {
        ExchangeInfoSpec {
            symbol: None,
            symbols: None,
            permissions: None,
            show_permission_sets: None,
            symbol_status: None,
            state: Unvalidated,
        }
    }

    /// Asks about one trading pair.
    pub fn with_symbol(self, symbol: &str) -> (r: Self)
        ensures
            r == (ExchangeInfoSpec { symbol: r.symbol, ..self }),
            r.symbol matches Some(v) && v@ == symbol@,
    {
        ExchangeInfoSpec { symbol: Some(symbol.to_owned()), ..self }
    }

    /// Asks about several trading pairs; they are written as a JSON array.
    pub fn with_symbols(self, symbols: Vec<&str>) -> (r: Self)
        ensures
            r == (ExchangeInfoSpec { symbols: r.symbols, ..self }),
            r.symbols matches Some(v) && v@ == json_string_array(symbols.deep_view()),
            r.symbols matches Some(v) && json_parsed_string_array(v@) == Some(symbols.deep_view()),
            optional_symbols_validation(r.symbols, false) == symbol_list_validation(
                Some(symbols.deep_view()),
                false,
            ),
    {
        let list = to_strings(&symbols);
        ExchangeInfoSpec { symbols: Some(to_json_string_array(&list)), ..self }
    }

    /// Lists only pairs with these permissions.
    pub fn with_permissions(self, permissions: Vec<&str>) -> (r: Self)
        ensures
            r == (ExchangeInfoSpec { permissions: r.permissions, ..self }),
            r.permissions matches Some(v) && v.deep_view() == permissions.deep_view(),
    {
        ExchangeInfoSpec { permissions: Some(to_strings(&permissions)), ..self }
    }

    /// Sets whether the permission sets are listed.
    pub fn with_show_permission_sets(self, show: bool) -> (r: Self)
        ensures
            r == (ExchangeInfoSpec { show_permission_sets: Some(show), ..self }),
    {
        ExchangeInfoSpec { show_permission_sets: Some(show), ..self }
    }

    /// Lists only pairs with this status.
    pub fn with_symbol_status(self, status: &str) -> (r: Self)
        ensures
            r == (ExchangeInfoSpec { symbol_status: r.symbol_status, ..self }),
            r.symbol_status matches Some(v) && v@ == status@,
    {
        ExchangeInfoSpec { symbol_status: Some(status.to_owned()), ..self }
    }

    /// Checks the parameters as `validation` states; on success the
    /// same parameters come back as a validated specification.
    pub fn build(self) -> (r: Result<ExchangeInfoSpec<Validated>, InvalidParameter>)
        ensures
            match self.validation() {
                Ok(_) => r matches Ok(v) && self.same_parameters(&v),
                Err(e) => r == Err::<ExchangeInfoSpec<Validated>, InvalidParameter>(e),
            },
            r matches Ok(v) ==> v.validation() is Ok,
    {
        if let Err(e) = self.validate() {
            return Err(e);
        }
        Ok(ExchangeInfoSpec {
            symbol: self.symbol,
            symbols: self.symbols,
            permissions: self.permissions,
            show_permission_sets: self.show_permission_sets,
            symbol_status: self.symbol_status,
            state: Validated,
        })
    }

    fn validate(&self) -> (r: Result<(), InvalidParameter>)
        ensures
            r == self.validation(),
    {
        if let Some(s) = &self.symbol {
            if is_blank(s.as_str()) {
                return Err(InvalidParameter::Empty { parameter: "symbol" });
            }
        }
        if let Some(json) = &self.symbols {
            if let Err(e) = check_symbols(json.as_str(), false) {
                return Err(e);
            }
        }
        if let Some(st) = &self.symbol_status {
            if !check_symbol_status(st.as_str()) {
                return Err(
                    InvalidParameter::Invalid {
                        parameter: "symbol_status",
                        reason: "must be one of: TRADING, HALT, BREAK",
                    },
                );
            }
        }
        if self.symbol.is_some() && self.symbols.is_some() {
            return Err(InvalidParameter::MutuallyExclusive { first: "symbol", second: "symbols" });
        }
        if self.symbol_status.is_some() && (self.symbol.is_some() || self.symbols.is_some()) {
            return Err(
                InvalidParameter::Invalid {
                    parameter: "symbolStatus",
                    reason: "cannot be used with 'symbol' or 'symbols' parameters",
                },
            );
        }
        if self.permissions.is_some() && (self.symbol.is_some() || self.symbols.is_some()) {
            return Err(
                InvalidParameter::MutuallyExclusive {
                    first: "permissions",
                    second: "symbol/symbols",
                },
            );
        }
        Ok(())
    }
}

/// `TRADING`, `HALT` or `BREAK`, the statuses a trading pair can be listed by.
pub open spec fn is_symbol_status(status: Seq<char>) -> bool {
    status == "TRADING"@ || status == "HALT"@ || status == "BREAK"@
}

/// Whether `status` is `TRADING`, `HALT` or `BREAK`.
pub fn check_symbol_status(status: &str) -> (r: bool)
    ensures
        r == is_symbol_status(status@),
{
    text_equals(status, "TRADING") || text_equals(status, "HALT") || text_equals(status, "BREAK")
}

} // verus!
