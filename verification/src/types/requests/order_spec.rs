use vstd::prelude::*;

use super::common::{is_positive_if_set, positive_if_set, Unvalidated, Validated};
use crate::decimal::Decimal;
use crate::enums::{OrderResponseType, OrderSide, OrderType, SelfTradePreventionMode, TimeInForce};
use crate::errors::InvalidParameter;
use crate::text::{blank, is_blank};

verus! {

/// The parameters of a new order on one trading pair.
#[derive(Debug, Clone)]
pub struct OrderSpec<S = Unvalidated> {
    /// The trading pair, such as "BTCUSDT".
    pub symbol: String,
    /// Buy or sell.
    pub side: OrderSide,
    /// The kind of order.
    pub order_type: OrderType,
    /// How long the order stays active.
    pub time_in_force: Option<TimeInForce>,
    /// The quantity of the base asset.
    pub quantity: Option<Decimal>,
    /// The quantity to spend or receive in the quote asset (market orders).
    pub quote_order_quantity: Option<Decimal>,
    /// The limit price.
    pub price: Option<Decimal>,
    /// A client-chosen ID for the new order.
    pub client_order_id: Option<String>,
    /// The trigger price of stop and take-profit orders.
    pub stop_price: Option<Decimal>,
    /// The trailing delta in basis points.
    pub trailing_delta: Option<Decimal>,
    /// The visible quantity of an iceberg order.
    pub iceberg_quantity: Option<Decimal>,
    /// How much the response says.
    pub response_type: Option<OrderResponseType>,
    /// An ID of the strategy the order belongs to.
    pub strategy_id: Option<u64>,
    /// The type of that strategy (at least 1000000).
    pub strategy_type: Option<u32>,
    /// How self-trades are prevented.
    pub self_trade_prevention_mode: Option<SelfTradePreventionMode>,
    /// Whether `build` has checked the parameters.
    pub state: S,
}

impl<S> OrderSpec<S> {
    /// `self` and `other` hold the same parameters.
    pub open spec fn same_parameters<T>(&self, other: &OrderSpec<T>) -> bool {
        &&& self.symbol == other.symbol
        &&& self.side == other.side
        &&& self.order_type == other.order_type
        &&& self.time_in_force == other.time_in_force
        &&& self.quantity == other.quantity
        &&& self.quote_order_quantity == other.quote_order_quantity
        &&& self.price == other.price
        &&& self.client_order_id == other.client_order_id
        &&& self.stop_price == other.stop_price
        &&& self.trailing_delta == other.trailing_delta
        &&& self.iceberg_quantity == other.iceberg_quantity
        &&& self.response_type == other.response_type
        &&& self.strategy_id == other.strategy_id
        &&& self.strategy_type == other.strategy_type
        &&& self.self_trade_prevention_mode == other.self_trade_prevention_mode
    }

    /// The symbol may not be blank; quantity and quote quantity exclude each
    /// other; every amount given is greater than zero; a strategy type is at least
    /// 1000000; an iceberg order is good-till-cancelled or limit-maker; and the
    /// order type has what `order_type_validation` asks for.
    pub open spec fn validation(&self) -> Result<(), InvalidParameter> {
        if blank(self.symbol@) {
            Err(InvalidParameter::Empty { parameter: "symbol" })
        } else if self.quantity is Some && self.quote_order_quantity is Some {
            Err(
                InvalidParameter::MutuallyExclusive {
                    first: "quantity",
                    second: "quote_order_quantity",
                },
            )
        } else if !positive_if_set(self.quantity) {
            Err(
                InvalidParameter::Invalid {
                    parameter: "quantity",
                    reason: "must be greater than 0",
                },
            )
        } else if !positive_if_set(self.quote_order_quantity) {
            Err(
                InvalidParameter::Invalid {
                    parameter: "quote_order_quantity",
                    reason: "must be greater than 0",
                },
            )
        } else if !positive_if_set(self.price) {
            Err(InvalidParameter::Invalid { parameter: "price", reason: "must be greater than 0" })
        } else if !positive_if_set(self.stop_price) {
            Err(
                InvalidParameter::Invalid {
                    parameter: "stop_price",
                    reason: "must be greater than 0",
                },
            )
        } else if !positive_if_set(self.trailing_delta) {
            Err(
                InvalidParameter::Invalid {
                    parameter: "trailing_delta",
                    reason: "must be greater than 0",
                },
            )
        } else if !positive_if_set(self.iceberg_quantity) {
            Err(
                InvalidParameter::Invalid {
                    parameter: "iceberg_quantity",
                    reason: "must be greater than 0",
                },
            )
        } else if self.strategy_type matches Some(t) && t < 1000000 {
            Err(
                InvalidParameter::Range {
                    parameter: "strategy_type",
                    min: 1000000,
                    max: u32::MAX as i128,
                },
            )
        } else if self.iceberg_quantity is Some && self.time_in_force != Some(TimeInForce::GTC)
            && self.order_type != OrderType::LimitMaker {
            Err(
                InvalidParameter::Invalid {
                    parameter: "iceberg_quantity",
                    reason: "requires time_in_force to be GTC or order_type to be LIMIT_MAKER",
                },
            )
        } else {
            self.order_type_validation()
        }
    }

    /// What the order type asks for: a limit order needs a time in force, a
    /// quantity and a price; a market order a quantity or a quote quantity; a
    /// stop-loss or take-profit order a quantity and a stop price or trailing
    /// delta (the limit variants also a time in force and a price); a limit-maker
    /// order a quantity and a price. An unknown order type is refused.
    pub open spec fn order_type_validation(&self) -> Result<(), InvalidParameter> {
        match self.order_type {
            OrderType::Limit => {
                if self.time_in_force is None {
                    Err(InvalidParameter::Empty { parameter: "time_in_force" })
                } else if self.quantity is None {
                    Err(InvalidParameter::Empty { parameter: "quantity" })
                } else if self.price is None {
                    Err(InvalidParameter::Empty { parameter: "price" })
                } else {
                    Ok(())
                }
            },
            OrderType::Market => {
                if self.quantity is None && self.quote_order_quantity is None {
                    Err(InvalidParameter::Empty { parameter: "quantity or quote_order_quantity" })
                } else {
                    Ok(())
                }
            },
            OrderType::StopLoss => {
                if self.quantity is None {
                    Err(InvalidParameter::Empty { parameter: "quantity" })
                } else if self.stop_price is None && self.trailing_delta is None {
                    Err(InvalidParameter::Empty { parameter: "stop_price or trailing_delta" })
                } else {
                    Ok(())
                }
            },
            OrderType::StopLossLimit => {
                if self.time_in_force is None {
                    Err(InvalidParameter::Empty { parameter: "time_in_force" })
                } else if self.quantity is None {
                    Err(InvalidParameter::Empty { parameter: "quantity" })
                } else if self.price is None {
                    Err(InvalidParameter::Empty { parameter: "price" })
                } else if self.stop_price is None && self.trailing_delta is None {
                    Err(InvalidParameter::Empty { parameter: "stop_price or trailing_delta" })
                } else {
                    Ok(())
                }
            },
            OrderType::TakeProfit => {
                if self.quantity is None {
                    Err(InvalidParameter::Empty { parameter: "quantity" })
                } else if self.stop_price is None && self.trailing_delta is None {
                    Err(InvalidParameter::Empty { parameter: "stop_price or trailing_delta" })
                } else {
                    Ok(())
                }
            },
            OrderType::TakeProfitLimit => {
                if self.time_in_force is None {
                    Err(InvalidParameter::Empty { parameter: "time_in_force" })
                } else if self.quantity is None {
                    Err(InvalidParameter::Empty { parameter: "quantity" })
                } else if self.price is None {
                    Err(InvalidParameter::Empty { parameter: "price" })
                } else if self.stop_price is None && self.trailing_delta is None {
                    Err(InvalidParameter::Empty { parameter: "stop_price or trailing_delta" })
                } else {
                    Ok(())
                }
            },
            OrderType::LimitMaker => {
                if self.quantity is None {
                    Err(InvalidParameter::Empty { parameter: "quantity" })
                } else if self.price is None {
                    Err(InvalidParameter::Empty { parameter: "price" })
                } else {
                    Ok(())
                }
            },
            OrderType::Unknown => Err(
                InvalidParameter::Invalid {
                    parameter: "order_type",
                    reason: "must be a valid order type",
                },
            ),
        }
    }
}

impl OrderSpec<Unvalidated> {
    /// An order of `order_type` on `symbol`, with no optional parameter.
    pub fn new(symbol: &str, side: OrderSide, order_type: OrderType) -> (r: Self)
        ensures
            r.symbol@ == symbol@,
            r.side == side,
            r.order_type == order_type,
            r.time_in_force is None,
            r.quantity is None,
            r.quote_order_quantity is None,
            r.price is None,
            r.client_order_id is None,
            r.stop_price is None,
            r.trailing_delta is None,
            r.iceberg_quantity is None,
            r.response_type is None,
            r.strategy_id is None,
            r.strategy_type is None,
            r.self_trade_prevention_mode is None,
    {
        OrderSpec {
            symbol: symbol.to_owned(),
            side: side,
            order_type: order_type,
            time_in_force: None,
            quantity: None,
            quote_order_quantity: None,
            price: None,
            client_order_id: None,
            stop_price: None,
            trailing_delta: None,
            iceberg_quantity: None,
            response_type: None,
            strategy_id: None,
            strategy_type: None,
            self_trade_prevention_mode: None,
            state: Unvalidated,
        }
    }

    /// Sets how long the order stays active.
    pub fn with_time_in_force(self, time_in_force: TimeInForce) -> (r: Self)
        ensures
            r == (OrderSpec { time_in_force: Some(time_in_force), ..self }),
    {
        OrderSpec { time_in_force: Some(time_in_force), ..self }
    }

    /// Sets the quantity.
    pub fn with_quantity(self, quantity: Decimal) -> (r: Self)
        ensures
            r == (OrderSpec { quantity: Some(quantity), ..self }),
    {
        OrderSpec { quantity: Some(quantity), ..self }
    }

    /// Sets the quote quantity.
    pub fn with_quote_order_quantity(self, quote_quantity: Decimal) -> (r: Self)
        ensures
            r == (OrderSpec { quote_order_quantity: Some(quote_quantity), ..self }),
    {
        OrderSpec { quote_order_quantity: Some(quote_quantity), ..self }
    }

    /// Sets the limit price.
    pub fn with_price(self, price: Decimal) -> (r: Self)
        ensures
            r == (OrderSpec { price: Some(price), ..self }),
    {
        OrderSpec { price: Some(price), ..self }
    }

    /// Sets the client order ID.
    pub fn with_client_order_id(self, client_id: &str) -> (r: Self)
        ensures
            r == (OrderSpec { client_order_id: r.client_order_id, ..self }),
            r.client_order_id matches Some(v) && v@ == client_id@,
    {
        OrderSpec { client_order_id: Some(client_id.to_owned()), ..self }
    }

    /// Sets the stop price.
    pub fn with_stop_price(self, stop_price: Decimal) -> (r: Self)
        ensures
            r == (OrderSpec { stop_price: Some(stop_price), ..self }),
    {
        OrderSpec { stop_price: Some(stop_price), ..self }
    }

    /// Sets the trailing delta.
    pub fn with_trailing_delta(self, trailing_delta: Decimal) -> (r: Self)
        ensures
            r == (OrderSpec { trailing_delta: Some(trailing_delta), ..self }),
    {
        OrderSpec { trailing_delta: Some(trailing_delta), ..self }
    }

    /// Sets the iceberg quantity.
    pub fn with_iceberg_quantity(self, iceberg_quantity: Decimal) -> (r: Self)
        ensures
            r == (OrderSpec { iceberg_quantity: Some(iceberg_quantity), ..self }),
    {
        OrderSpec { iceberg_quantity: Some(iceberg_quantity), ..self }
    }

    /// Sets the response type.
    pub fn with_response_type(self, response_type: OrderResponseType) -> (r: Self)
        ensures
            r == (OrderSpec { response_type: Some(response_type), ..self }),
    {
        OrderSpec { response_type: Some(response_type), ..self }
    }

    /// Sets the strategy ID.
    pub fn with_strategy_id(self, strategy_id: u64) -> (r: Self)
        ensures
            r == (OrderSpec { strategy_id: Some(strategy_id), ..self }),
    {
        OrderSpec { strategy_id: Some(strategy_id), ..self }
    }

    /// Sets the strategy type.
    pub fn with_strategy_type(self, strategy_type: u32) -> (r: Self)
        ensures
            r == (OrderSpec { strategy_type: Some(strategy_type), ..self }),
    {
        OrderSpec { strategy_type: Some(strategy_type), ..self }
    }

    /// Sets the self-trade prevention mode.
    pub fn with_self_trade_prevention_mode(self, stp_mode: SelfTradePreventionMode) -> (r: Self)
        ensures
            r == (OrderSpec { self_trade_prevention_mode: Some(stp_mode), ..self }),
    {
        OrderSpec { self_trade_prevention_mode: Some(stp_mode), ..self }
    }

    /// Checks the parameters as `validation` states; on success the
    /// same parameters come back as a validated specification.
    pub fn build(self) -> (r: Result<OrderSpec<Validated>, InvalidParameter>)
        ensures
            match self.validation() {
                Ok(_) => r matches Ok(v) && self.same_parameters(&v),
                Err(e) => r == Err::<OrderSpec<Validated>, InvalidParameter>(e),
            },
            r matches Ok(v) ==> v.validation() is Ok,
    {
        if let Err(e) = self.validate() {
            return Err(e);
        }
        Ok(OrderSpec {
            symbol: self.symbol,
            side: self.side,
            order_type: self.order_type,
            time_in_force: self.time_in_force,
            quantity: self.quantity,
            quote_order_quantity: self.quote_order_quantity,
            price: self.price,
            client_order_id: self.client_order_id,
            stop_price: self.stop_price,
            trailing_delta: self.trailing_delta,
            iceberg_quantity: self.iceberg_quantity,
            response_type: self.response_type,
            strategy_id: self.strategy_id,
            strategy_type: self.strategy_type,
            self_trade_prevention_mode: self.self_trade_prevention_mode,
            state: Validated,
        })
    }

    fn validate(&self) -> (r: Result<(), InvalidParameter>)
        ensures
            r == self.validation(),
    {
        if is_blank(self.symbol.as_str()) {
            return Err(InvalidParameter::Empty { parameter: "symbol" });
        }
        if self.quantity.is_some() && self.quote_order_quantity.is_some() {
            return Err(
                InvalidParameter::MutuallyExclusive {
                    first: "quantity",
                    second: "quote_order_quantity",
                },
            );
        }
        if !is_positive_if_set(self.quantity) {
            return Err(
                InvalidParameter::Invalid {
                    parameter: "quantity",
                    reason: "must be greater than 0",
                },
            );
        }
        if !is_positive_if_set(self.quote_order_quantity) {
            return Err(
                InvalidParameter::Invalid {
                    parameter: "quote_order_quantity",
                    reason: "must be greater than 0",
                },
            );
        }
        if !is_positive_if_set(self.price) {
            return Err(
                InvalidParameter::Invalid {
                    parameter: "price",
                    reason: "must be greater than 0",
                },
            );
        }
        if !is_positive_if_set(self.stop_price) {
            return Err(
                InvalidParameter::Invalid {
                    parameter: "stop_price",
                    reason: "must be greater than 0",
                },
            );
        }
        if !is_positive_if_set(self.trailing_delta) {
            return Err(
                InvalidParameter::Invalid {
                    parameter: "trailing_delta",
                    reason: "must be greater than 0",
                },
            );
        }
        if !is_positive_if_set(self.iceberg_quantity) {
            return Err(
                InvalidParameter::Invalid {
                    parameter: "iceberg_quantity",
                    reason: "must be greater than 0",
                },
            );
        }
        if let Some(t) = self.strategy_type {
            if t < 1000000 {
                return Err(
                    InvalidParameter::Range {
                        parameter: "strategy_type",
                        min: 1000000,
                        max: u32::MAX as i128,
                    },
                );
            }
        }
        if self.iceberg_quantity.is_some() {
            let gtc = match self.time_in_force {
                Some(TimeInForce::GTC) => true,
                _ => false,
            };
            let limit_maker = match self.order_type {
                OrderType::LimitMaker => true,
                _ => false,
            };
            if !gtc && !limit_maker {
                return Err(
                    InvalidParameter::Invalid {
                        parameter: "iceberg_quantity",
                        reason: "requires time_in_force to be GTC or order_type to be LIMIT_MAKER",
                    },
                );
            }
        }
        match self.order_type {
            OrderType::Limit => {
                if self.time_in_force.is_none() {
                    return Err(InvalidParameter::Empty { parameter: "time_in_force" });
                }
                if self.quantity.is_none() {
                    return Err(InvalidParameter::Empty { parameter: "quantity" });
                }
                if self.price.is_none() {
                    return Err(InvalidParameter::Empty { parameter: "price" });
                }
            },
            OrderType::Market => {
                if self.quantity.is_none() && self.quote_order_quantity.is_none() {
                    return Err(
                        InvalidParameter::Empty {
                            parameter: "quantity or quote_order_quantity",
                        },
                    );
                }
            },
            OrderType::StopLoss => {
                if self.quantity.is_none() {
                    return Err(InvalidParameter::Empty { parameter: "quantity" });
                }
                if self.stop_price.is_none() && self.trailing_delta.is_none() {
                    return Err(
                        InvalidParameter::Empty {
                            parameter: "stop_price or trailing_delta",
                        },
                    );
                }
            },
            OrderType::StopLossLimit => {
                if self.time_in_force.is_none() {
                    return Err(InvalidParameter::Empty { parameter: "time_in_force" });
                }
                if self.quantity.is_none() {
                    return Err(InvalidParameter::Empty { parameter: "quantity" });
                }
                if self.price.is_none() {
                    return Err(InvalidParameter::Empty { parameter: "price" });
                }
                if self.stop_price.is_none() && self.trailing_delta.is_none() {
                    return Err(
                        InvalidParameter::Empty {
                            parameter: "stop_price or trailing_delta",
                        },
                    );
                }
            },
            OrderType::TakeProfit => {
                if self.quantity.is_none() {
                    return Err(InvalidParameter::Empty { parameter: "quantity" });
                }
                if self.stop_price.is_none() && self.trailing_delta.is_none() {
                    return Err(
                        InvalidParameter::Empty {
                            parameter: "stop_price or trailing_delta",
                        },
                    );
                }
            },
            OrderType::TakeProfitLimit => {
                if self.time_in_force.is_none() {
                    return Err(InvalidParameter::Empty { parameter: "time_in_force" });
                }
                if self.quantity.is_none() {
                    return Err(InvalidParameter::Empty { parameter: "quantity" });
                }
                if self.price.is_none() {
                    return Err(InvalidParameter::Empty { parameter: "price" });
                }
                if self.stop_price.is_none() && self.trailing_delta.is_none() {
                    return Err(
                        InvalidParameter::Empty {
                            parameter: "stop_price or trailing_delta",
                        },
                    );
                }
            },
            OrderType::LimitMaker => {
                if self.quantity.is_none() {
                    return Err(InvalidParameter::Empty { parameter: "quantity" });
                }
                if self.price.is_none() {
                    return Err(InvalidParameter::Empty { parameter: "price" });
                }
            },
            OrderType::Unknown => {
                return Err(
                    InvalidParameter::Invalid {
                        parameter: "order_type",
                        reason: "must be a valid order type",
                    },
                );
            },
        }
        Ok(())
    }
}

} // verus!
