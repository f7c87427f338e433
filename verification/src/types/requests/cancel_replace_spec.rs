use vstd::prelude::*;

use super::common::{is_positive_if_set, positive_if_set, Unvalidated, Validated};
use crate::decimal::{Decimal, MAX_MANTISSA};
use crate::enums::{
    CancelReplaceMode, CancelRestrictions, OrderRateLimitExceededMode, OrderResponseType, OrderSide,
    OrderType, SelfTradePreventionMode, TimeInForce,
};
use crate::errors::InvalidParameter;
use crate::text::{blank, is_blank};

verus! {

/// The parameters of a request that cancels an open order and places a new
/// order on the same trading pair.
#[derive(Debug, Clone)]
pub struct CancelReplaceSpec<S = Unvalidated> {
    /// The trading pair, such as "BTCUSDT".
    pub symbol: String,
    /// Whether the new order is placed when the cancellation fails.
    pub cancel_replace_mode: CancelReplaceMode,
    /// The ID of the order to cancel.
    pub cancel_order_id: Option<u64>,
    /// The client order ID of the order to cancel.
    pub cancel_origin_client_order_id: Option<String>,
    /// A client-chosen ID for the cancellation.
    pub cancel_new_client_order_id: Option<String>,
    /// Which order statuses may be cancelled.
    pub cancel_restrictions: Option<CancelRestrictions>,
    /// What happens when the order rate limit is exceeded.
    pub order_rate_limit_exceeded_mode: Option<OrderRateLimitExceededMode>,
    /// Buy or sell (new order).
    pub side: OrderSide,
    /// The kind of the new order.
    pub order_type: OrderType,
    /// How long the new order stays active.
    pub time_in_force: Option<TimeInForce>,
    /// The quantity of the base asset.
    pub quantity: Option<Decimal>,
    /// The quantity in the quote asset (market orders).
    pub quote_order_quantity: Option<Decimal>,
    /// The limit price.
    pub price: Option<Decimal>,
    /// A client-chosen ID for the new order.
    pub new_client_order_id: Option<String>,
    /// An ID of the strategy the new order belongs to.
    pub strategy_id: Option<u64>,
    /// The type of that strategy (at least 1000000).
    pub strategy_type: Option<u32>,
    /// The trigger price of stop and take-profit orders.
    pub stop_price: Option<Decimal>,
    /// The trailing delta in basis points.
    pub trailing_delta: Option<Decimal>,
    /// The visible quantity of an iceberg order.
    pub iceberg_quantity: Option<Decimal>,
    /// How much the response says.
    pub new_order_response_type: Option<OrderResponseType>,
    /// How self-trades are prevented.
    pub self_trade_prevention_mode: Option<SelfTradePreventionMode>,
    /// Whether `build` has checked the parameters.
    pub state: S,
}

impl<S> CancelReplaceSpec<S> {
    /// `self` and `other` hold the same parameters.
    pub open spec fn same_parameters<T>(&self, other: &CancelReplaceSpec<T>) -> bool {
        &&& self.symbol == other.symbol
        &&& self.cancel_replace_mode == other.cancel_replace_mode
        &&& self.cancel_order_id == other.cancel_order_id
        &&& self.cancel_origin_client_order_id == other.cancel_origin_client_order_id
        &&& self.cancel_new_client_order_id == other.cancel_new_client_order_id
        &&& self.cancel_restrictions == other.cancel_restrictions
        &&& self.order_rate_limit_exceeded_mode == other.order_rate_limit_exceeded_mode
        &&& self.side == other.side
        &&& self.order_type == other.order_type
        &&& self.time_in_force == other.time_in_force
        &&& self.quantity == other.quantity
        &&& self.quote_order_quantity == other.quote_order_quantity
        &&& self.price == other.price
        &&& self.new_client_order_id == other.new_client_order_id
        &&& self.strategy_id == other.strategy_id
        &&& self.strategy_type == other.strategy_type
        &&& self.stop_price == other.stop_price
        &&& self.trailing_delta == other.trailing_delta
        &&& self.iceberg_quantity == other.iceberg_quantity
        &&& self.new_order_response_type == other.new_order_response_type
        &&& self.self_trade_prevention_mode == other.self_trade_prevention_mode
    }

    /// The symbol may not be blank; the order to cancel is named by ID or client
    /// ID; a strategy type is at least 1000000; every amount given is
    /// greater than zero; and the new order has what `new_order_validation` asks for.
    pub open spec fn validation(&self) -> Result<(), InvalidParameter> {
        if blank(self.symbol@) {
            Err(InvalidParameter::Empty { parameter: "symbol" })
        } else if self.cancel_order_id is None && self.cancel_origin_client_order_id is None {
            Err(
                InvalidParameter::Required {
                    parameter: "cancel_order_id or cancel_origin_client_order_id",
                },
            )
        } else if self.strategy_type matches Some(t) && t < 1000000 {
            Err(
                InvalidParameter::Range {
                    parameter: "strategy_type",
                    min: 1000000,
                    max: i32::MAX as i128,
                },
            )
        } else if !positive_if_set(self.quantity) {
            Err(InvalidParameter::Range { parameter: "quantity", min: 0, max: MAX_MANTISSA })
        } else if !positive_if_set(self.quote_order_quantity) {
            Err(
                InvalidParameter::Range {
                    parameter: "quote_order_quantity",
                    min: 0,
                    max: MAX_MANTISSA,
                },
            )
        } else if !positive_if_set(self.price) {
            Err(InvalidParameter::Range { parameter: "price", min: 0, max: MAX_MANTISSA })
        } else if !positive_if_set(self.stop_price) {
            Err(InvalidParameter::Range { parameter: "stop_price", min: 0, max: MAX_MANTISSA })
        } else if !positive_if_set(self.trailing_delta) {
            Err(InvalidParameter::Range { parameter: "trailing_delta", min: 0, max: MAX_MANTISSA })
        } else if !positive_if_set(self.iceberg_quantity) {
            Err(
                InvalidParameter::Range {
                    parameter: "iceberg_quantity",
                    min: 0,
                    max: MAX_MANTISSA,
                },
            )
        } else {
            self.new_order_validation()
        }
    }

    /// What the order type of the new order asks for: a limit order needs a
    /// time in force, a price and a quantity; a limit-maker order a price and a
    /// quantity; a market order exactly one of quantity and quote quantity; a
    /// stop-loss or take-profit order a quantity and a stop price or trailing
    /// delta (the limit variants also a time in force and a price).
    pub open spec fn new_order_validation(&self) -> Result<(), InvalidParameter> {
        match self.order_type {
            OrderType::Limit => {
                if self.time_in_force is None {
                    Err(InvalidParameter::Required { parameter: "time_in_force" })
                } else if self.price is None {
                    Err(InvalidParameter::Required { parameter: "price" })
                } else if self.quantity is None {
                    Err(InvalidParameter::Required { parameter: "quantity" })
                } else {
                    Ok(())
                }
            },
            OrderType::LimitMaker => {
                if self.price is None {
                    Err(InvalidParameter::Required { parameter: "price" })
                } else if self.quantity is None {
                    Err(InvalidParameter::Required { parameter: "quantity" })
                } else {
                    Ok(())
                }
            },
            OrderType::StopLoss => {
                if self.quantity is None {
                    Err(InvalidParameter::Required { parameter: "quantity" })
                } else if self.stop_price is None && self.trailing_delta is None {
                    Err(InvalidParameter::Required { parameter: "stop_price or trailing_delta" })
                } else {
                    Ok(())
                }
            },
            OrderType::StopLossLimit => {
                if self.time_in_force is None {
                    Err(InvalidParameter::Required { parameter: "time_in_force" })
                } else if self.price is None {
                    Err(InvalidParameter::Required { parameter: "price" })
                } else if self.quantity is None {
                    Err(InvalidParameter::Required { parameter: "quantity" })
                } else if self.stop_price is None && self.trailing_delta is None {
                    Err(InvalidParameter::Required { parameter: "stop_price or trailing_delta" })
                } else {
                    Ok(())
                }
            },
            OrderType::TakeProfit => {
                if self.quantity is None {
                    Err(InvalidParameter::Required { parameter: "quantity" })
                } else if self.stop_price is None && self.trailing_delta is None {
                    Err(InvalidParameter::Required { parameter: "stop_price or trailing_delta" })
                } else {
                    Ok(())
                }
            },
            OrderType::TakeProfitLimit => {
                if self.time_in_force is None {
                    Err(InvalidParameter::Required { parameter: "time_in_force" })
                } else if self.price is None {
                    Err(InvalidParameter::Required { parameter: "price" })
                } else if self.quantity is None {
                    Err(InvalidParameter::Required { parameter: "quantity" })
                } else if self.stop_price is None && self.trailing_delta is None {
                    Err(InvalidParameter::Required { parameter: "stop_price or trailing_delta" })
                } else {
                    Ok(())
                }
            },
            OrderType::Market => {
                if self.quantity is None && self.quote_order_quantity is None {
                    Err(
                        InvalidParameter::Required {
                            parameter: "quantity or quote_order_quantity",
                        },
                    )
                } else if self.quantity is Some && self.quote_order_quantity is Some {
                    Err(
                        InvalidParameter::MutuallyExclusive {
                            first: "quantity",
                            second: "quote_order_quantity",
                        },
                    )
                } else {
                    Ok(())
                }
            },
            OrderType::Unknown => Ok(()),
        }
    }
}

impl CancelReplaceSpec<Unvalidated> {
    /// A cancel-replace of `order_type` on `symbol`, with no optional parameter.
    pub fn new(
        symbol: &str,
        cancel_replace_mode: CancelReplaceMode,
        side: OrderSide,
        order_type: OrderType,
    ) -> (r: Self)
        ensures
            r.symbol@ == symbol@,
            r.cancel_replace_mode == cancel_replace_mode,
            r.cancel_order_id is None,
            r.cancel_origin_client_order_id is None,
            r.cancel_new_client_order_id is None,
            r.cancel_restrictions is None,
            r.order_rate_limit_exceeded_mode is None,
            r.side == side,
            r.order_type == order_type,
            r.time_in_force is None,
            r.quantity is None,
            r.quote_order_quantity is None,
            r.price is None,
            r.new_client_order_id is None,
            r.strategy_id is None,
            r.strategy_type is None,
            r.stop_price is None,
            r.trailing_delta is None,
            r.iceberg_quantity is None,
            r.new_order_response_type is None,
            r.self_trade_prevention_mode is None,
    {
        CancelReplaceSpec {
            symbol: symbol.to_owned(),
            cancel_replace_mode: cancel_replace_mode,
            cancel_order_id: None,
            cancel_origin_client_order_id: None,
            cancel_new_client_order_id: None,
            cancel_restrictions: None,
            order_rate_limit_exceeded_mode: None,
            side: side,
            order_type: order_type,
            time_in_force: None,
            quantity: None,
            quote_order_quantity: None,
            price: None,
            new_client_order_id: None,
            strategy_id: None,
            strategy_type: None,
            stop_price: None,
            trailing_delta: None,
            iceberg_quantity: None,
            new_order_response_type: None,
            self_trade_prevention_mode: None,
            state: Unvalidated,
        }
    }

    /// Names the order to cancel by ID.
    pub fn with_cancel_order_id(self, order_id: u64) -> (r: Self)
        ensures
            r == (CancelReplaceSpec { cancel_order_id: Some(order_id), ..self }),
    {
        CancelReplaceSpec { cancel_order_id: Some(order_id), ..self }
    }

    /// Names the order to cancel by client order ID.
    pub fn with_cancel_original_client_order_id(self, original_id: &str) -> (r: Self)
        ensures
            r == (CancelReplaceSpec { cancel_origin_client_order_id: r.cancel_origin_client_order_id, ..self }),
            r.cancel_origin_client_order_id matches Some(v) && v@ == original_id@,
    {
        CancelReplaceSpec { cancel_origin_client_order_id: Some(original_id.to_owned()), ..self }
    }

    /// Sets the client ID of the cancellation.
    pub fn with_cancel_new_client_order_id(self, new_id: &str) -> (r: Self)
        ensures
            r == (CancelReplaceSpec { cancel_new_client_order_id: r.cancel_new_client_order_id, ..self }),
            r.cancel_new_client_order_id matches Some(v) && v@ == new_id@,
    {
        CancelReplaceSpec { cancel_new_client_order_id: Some(new_id.to_owned()), ..self }
    }

    /// Sets which order statuses may be cancelled.
    pub fn with_cancel_restrictions(self, restrictions: CancelRestrictions) -> (r: Self)
        ensures
            r == (CancelReplaceSpec { cancel_restrictions: Some(restrictions), ..self }),
    {
        CancelReplaceSpec { cancel_restrictions: Some(restrictions), ..self }
    }

    /// Sets what happens when the order rate limit is exceeded.
    pub fn with_order_rate_limit_exceeded_mode(self, mode: OrderRateLimitExceededMode) -> (r: Self)
        ensures
            r == (CancelReplaceSpec { order_rate_limit_exceeded_mode: Some(mode), ..self }),
    {
        CancelReplaceSpec { order_rate_limit_exceeded_mode: Some(mode), ..self }
    }

    /// Sets how long the new order stays active.
    pub fn with_time_in_force(self, tif: TimeInForce) -> (r: Self)
        ensures
            r == (CancelReplaceSpec { time_in_force: Some(tif), ..self }),
    {
        CancelReplaceSpec { time_in_force: Some(tif), ..self }
    }

    /// Sets the quantity.
    pub fn with_quantity(self, quantity: Decimal) -> (r: Self)
        ensures
            r == (CancelReplaceSpec { quantity: Some(quantity), ..self }),
    {
        CancelReplaceSpec { quantity: Some(quantity), ..self }
    }

    /// Sets the quote quantity.
    pub fn with_quote_order_quantity(self, quote_quantity: Decimal) -> (r: Self)
        ensures
            r == (CancelReplaceSpec { quote_order_quantity: Some(quote_quantity), ..self }),
    {
        CancelReplaceSpec { quote_order_quantity: Some(quote_quantity), ..self }
    }

    /// Sets the limit price.
    pub fn with_price(self, price: Decimal) -> (r: Self)
        ensures
            r == (CancelReplaceSpec { price: Some(price), ..self }),
    {
        CancelReplaceSpec { price: Some(price), ..self }
    }

    /// Sets the client ID of the new order.
    pub fn with_new_client_order_id(self, new_id: &str) -> (r: Self)
        ensures
            r == (CancelReplaceSpec { new_client_order_id: r.new_client_order_id, ..self }),
            r.new_client_order_id matches Some(v) && v@ == new_id@,
    {
        CancelReplaceSpec { new_client_order_id: Some(new_id.to_owned()), ..self }
    }

    /// Sets the strategy ID.
    pub fn with_strategy_id(self, strategy_id: u64) -> (r: Self)
        ensures
            r == (CancelReplaceSpec { strategy_id: Some(strategy_id), ..self }),
    {
        CancelReplaceSpec { strategy_id: Some(strategy_id), ..self }
    }

    /// Sets the strategy type.
    pub fn with_strategy_type(self, strategy_type: u32) -> (r: Self)
        ensures
            r == (CancelReplaceSpec { strategy_type: Some(strategy_type), ..self }),
    {
        CancelReplaceSpec { strategy_type: Some(strategy_type), ..self }
    }

    /// Sets the stop price.
    pub fn with_stop_price(self, stop_price: Decimal) -> (r: Self)
        ensures
            r == (CancelReplaceSpec { stop_price: Some(stop_price), ..self }),
    {
        CancelReplaceSpec { stop_price: Some(stop_price), ..self }
    }

    /// Sets the trailing delta.
    pub fn with_trailing_delta(self, trailing_delta: Decimal) -> (r: Self)
        ensures
            r == (CancelReplaceSpec { trailing_delta: Some(trailing_delta), ..self }),
    {
        CancelReplaceSpec { trailing_delta: Some(trailing_delta), ..self }
    }

    /// Sets the iceberg quantity.
    pub fn with_iceberg_quantity(self, iceberg_quantity: Decimal) -> (r: Self)
        ensures
            r == (CancelReplaceSpec { iceberg_quantity: Some(iceberg_quantity), ..self }),
    {
        CancelReplaceSpec { iceberg_quantity: Some(iceberg_quantity), ..self }
    }

    /// Sets the response type.
    pub fn with_new_order_response_type(self, response_type: OrderResponseType) -> (r: Self)
        ensures
            r == (CancelReplaceSpec { new_order_response_type: Some(response_type), ..self }),
    {
        CancelReplaceSpec { new_order_response_type: Some(response_type), ..self }
    }

    /// Sets the self-trade prevention mode.
    pub fn with_self_trade_prevention_mode(self, stp_mode: SelfTradePreventionMode) -> (r: Self)
        ensures
            r == (CancelReplaceSpec { self_trade_prevention_mode: Some(stp_mode), ..self }),
    {
        CancelReplaceSpec { self_trade_prevention_mode: Some(stp_mode), ..self }
    }

    /// Checks the parameters as `validation` states; on success the
    /// same parameters come back as a validated specification.
    pub fn build(self) -> (r: Result<CancelReplaceSpec<Validated>, InvalidParameter>)
        ensures
            match self.validation() {
                Ok(_) => r matches Ok(v) && self.same_parameters(&v),
                Err(e) => r == Err::<CancelReplaceSpec<Validated>, InvalidParameter>(e),
            },
            r matches Ok(v) ==> v.validation() is Ok,
    {
        if let Err(e) = self.validate() {
            return Err(e);
        }
        Ok(CancelReplaceSpec {
            symbol: self.symbol,
            cancel_replace_mode: self.cancel_replace_mode,
            cancel_order_id: self.cancel_order_id,
            cancel_origin_client_order_id: self.cancel_origin_client_order_id,
            cancel_new_client_order_id: self.cancel_new_client_order_id,
            cancel_restrictions: self.cancel_restrictions,
            order_rate_limit_exceeded_mode: self.order_rate_limit_exceeded_mode,
            side: self.side,
            order_type: self.order_type,
            time_in_force: self.time_in_force,
            quantity: self.quantity,
            quote_order_quantity: self.quote_order_quantity,
            price: self.price,
            new_client_order_id: self.new_client_order_id,
            strategy_id: self.strategy_id,
            strategy_type: self.strategy_type,
            stop_price: self.stop_price,
            trailing_delta: self.trailing_delta,
            iceberg_quantity: self.iceberg_quantity,
            new_order_response_type: self.new_order_response_type,
            self_trade_prevention_mode: self.self_trade_prevention_mode,
            state: Validated,
        })
    }

    fn validate(&self) -> (r: Result<(), InvalidParameter>)
        ensures
            r == self.validation(),
    {
        if is_blank(self.symbol.as_str()) {
            return Err(InvalidParameter::Empty { parameter: "symbol" });
        }
        if self.cancel_order_id.is_none() && self.cancel_origin_client_order_id.is_none() {
            return Err(
                InvalidParameter::Required {
                    parameter: "cancel_order_id or cancel_origin_client_order_id",
                },
            );
        }
        if let Some(t) = self.strategy_type {
            if t < 1000000 {
                return Err(
                    InvalidParameter::Range {
                        parameter: "strategy_type",
                        min: 1000000,
                        max: i32::MAX as i128,
                    },
                );
            }
        }
        if !is_positive_if_set(self.quantity) {
            return Err(
                InvalidParameter::Range {
                    parameter: "quantity",
                    min: 0,
                    max: MAX_MANTISSA,
                },
            );
        }
        if !is_positive_if_set(self.quote_order_quantity) {
            return Err(
                InvalidParameter::Range {
                    parameter: "quote_order_quantity",
                    min: 0,
                    max: MAX_MANTISSA,
                },
            );
        }
        if !is_positive_if_set(self.price) {
            return Err(InvalidParameter::Range { parameter: "price", min: 0, max: MAX_MANTISSA });
        }
        if !is_positive_if_set(self.stop_price) {
            return Err(
                InvalidParameter::Range {
                    parameter: "stop_price",
                    min: 0,
                    max: MAX_MANTISSA,
                },
            );
        }
        if !is_positive_if_set(self.trailing_delta) {
            return Err(
                InvalidParameter::Range {
                    parameter: "trailing_delta",
                    min: 0,
                    max: MAX_MANTISSA,
                },
            );
        }
        if !is_positive_if_set(self.iceberg_quantity) {
            return Err(
                InvalidParameter::Range {
                    parameter: "iceberg_quantity",
                    min: 0,
                    max: MAX_MANTISSA,
                },
            );
        }
        self.validate_new_order_parameters()
    }

    fn validate_new_order_parameters(&self) -> (r: Result<(), InvalidParameter>)
        ensures
            r == self.new_order_validation(),
    {
        match self.order_type {
            OrderType::Limit => {
                if self.time_in_force.is_none() {
                    return Err(InvalidParameter::Required { parameter: "time_in_force" });
                }
                if self.price.is_none() {
                    return Err(InvalidParameter::Required { parameter: "price" });
                }
                if self.quantity.is_none() {
                    return Err(InvalidParameter::Required { parameter: "quantity" });
                }
            },
            OrderType::LimitMaker => {
                if self.price.is_none() {
                    return Err(InvalidParameter::Required { parameter: "price" });
                }
                if self.quantity.is_none() {
                    return Err(InvalidParameter::Required { parameter: "quantity" });
                }
            },
            OrderType::StopLoss => {
                if self.quantity.is_none() {
                    return Err(InvalidParameter::Required { parameter: "quantity" });
                }
                if self.stop_price.is_none() && self.trailing_delta.is_none() {
                    return Err(
                        InvalidParameter::Required {
                            parameter: "stop_price or trailing_delta",
                        },
                    );
                }
            },
            OrderType::StopLossLimit => {
                if self.time_in_force.is_none() {
                    return Err(InvalidParameter::Required { parameter: "time_in_force" });
                }
                if self.price.is_none() {
                    return Err(InvalidParameter::Required { parameter: "price" });
                }
                if self.quantity.is_none() {
                    return Err(InvalidParameter::Required { parameter: "quantity" });
                }
                if self.stop_price.is_none() && self.trailing_delta.is_none() {
                    return Err(
                        InvalidParameter::Required {
                            parameter: "stop_price or trailing_delta",
                        },
                    );
                }
            },
            OrderType::TakeProfit => {
                if self.quantity.is_none() {
                    return Err(InvalidParameter::Required { parameter: "quantity" });
                }
                if self.stop_price.is_none() && self.trailing_delta.is_none() {
                    return Err(
                        InvalidParameter::Required {
                            parameter: "stop_price or trailing_delta",
                        },
                    );
                }
            },
            OrderType::TakeProfitLimit => {
                if self.time_in_force.is_none() {
                    return Err(InvalidParameter::Required { parameter: "time_in_force" });
                }
                if self.price.is_none() {
                    return Err(InvalidParameter::Required { parameter: "price" });
                }
                if self.quantity.is_none() {
                    return Err(InvalidParameter::Required { parameter: "quantity" });
                }
                if self.stop_price.is_none() && self.trailing_delta.is_none() {
                    return Err(
                        InvalidParameter::Required {
                            parameter: "stop_price or trailing_delta",
                        },
                    );
                }
            },
            OrderType::Market => {
                if self.quantity.is_none() && self.quote_order_quantity.is_none() {
                    return Err(
                        InvalidParameter::Required {
                            parameter: "quantity or quote_order_quantity",
                        },
                    );
                }
                if self.quantity.is_some() && self.quote_order_quantity.is_some() {
                    return Err(
                        InvalidParameter::MutuallyExclusive {
                            first: "quantity",
                            second: "quote_order_quantity",
                        },
                    );
                }
            },
            OrderType::Unknown => {},
        }
        Ok(())
    }
}

} // verus!
