use vstd::prelude::*;

use super::common::{Unvalidated, Validated};
use crate::decimal::Decimal;
use crate::enums::{OrderResponseType, OrderSide, OrderType, SelfTradePreventionMode, TimeInForce};
use crate::errors::InvalidParameter;
use crate::text::{blank, is_blank};

verus! {

/// The parameters of a one-triggers-a-one-cancels-the-other order list: a
/// working order that, once filled, places a pair of pending orders above and
/// below the market, of which the first to fill cancels the other.
#[derive(Debug, Clone)]
pub struct OtocoOrderSpec<S = Unvalidated> {
    /// The trading pair, such as "BTCUSDT".
    pub symbol: String,
    /// A client-chosen ID for the order list.
    pub list_client_order_id: Option<String>,
    /// The kind of the working order (limit or limit-maker).
    pub working_type: OrderType,
    /// Buy or sell (working order).
    pub working_side: OrderSide,
    /// A client-chosen ID for the working order.
    pub working_client_order_id: Option<String>,
    /// The limit price of the working order.
    pub working_price: Decimal,
    /// The quantity of the working order.
    pub working_quantity: Decimal,
    /// The visible quantity of the working order, if an iceberg.
    pub working_iceberg_quantity: Option<Decimal>,
    /// How long the working order stays active.
    pub working_time_in_force: Option<TimeInForce>,
    /// An ID of the strategy of the working order.
    pub working_strategy_id: Option<u64>,
    /// The type of that strategy.
    pub working_strategy_type: Option<u32>,
    /// Buy or sell (pending orders).
    pub pending_side: OrderSide,
    /// The quantity of the pending orders.
    pub pending_quantity: Decimal,
    /// The kind of the pending above order.
    pub pending_above_type: OrderType,
    /// A client-chosen ID for the pending above order.
    pub pending_above_client_order_id: Option<String>,
    /// The limit price of the pending above order.
    pub pending_above_price: Option<Decimal>,
    /// The trigger price of the pending above order.
    pub pending_above_stop_price: Option<Decimal>,
    /// The trailing delta of the pending above order.
    pub pending_above_trailing_delta: Option<Decimal>,
    /// The visible quantity of the pending above order, if an iceberg.
    pub pending_above_iceberg_quantity: Option<Decimal>,
    /// How long the pending above order stays active.
    pub pending_above_time_in_force: Option<TimeInForce>,
    /// An ID of the strategy of the pending above order.
    pub pending_above_strategy_id: Option<u64>,
    /// The type of that strategy.
    pub pending_above_strategy_type: Option<u32>,
    /// The kind of the pending below order, if any.
    pub pending_below_type: Option<OrderType>,
    /// A client-chosen ID for the pending below order.
    pub pending_below_client_order_id: Option<String>,
    /// The limit price of the pending below order.
    pub pending_below_price: Option<Decimal>,
    /// The trigger price of the pending below order.
    pub pending_below_stop_price: Option<Decimal>,
    /// The trailing delta of the pending below order.
    pub pending_below_trailing_delta: Option<Decimal>,
    /// The visible quantity of the pending below order, if an iceberg.
    pub pending_below_iceberg_quantity: Option<Decimal>,
    /// How long the pending below order stays active.
    pub pending_below_time_in_force: Option<TimeInForce>,
    /// An ID of the strategy of the pending below order.
    pub pending_below_strategy_id: Option<u64>,
    /// The type of that strategy.
    pub pending_below_strategy_type: Option<u32>,
    /// How much the response says.
    pub response_type: Option<OrderResponseType>,
    /// How self-trades are prevented.
    pub self_trade_prevention_mode: Option<SelfTradePreventionMode>,
    /// Whether `build` has checked the parameters.
    pub state: S,
}

impl<S> OtocoOrderSpec<S> {
    /// `self` and `other` hold the same parameters.
    pub open spec fn same_parameters<T>(&self, other: &OtocoOrderSpec<T>) -> bool {
        &&& self.symbol == other.symbol
        &&& self.list_client_order_id == other.list_client_order_id
        &&& self.working_type == other.working_type
        &&& self.working_side == other.working_side
        &&& self.working_client_order_id == other.working_client_order_id
        &&& self.working_price == other.working_price
        &&& self.working_quantity == other.working_quantity
        &&& self.working_iceberg_quantity == other.working_iceberg_quantity
        &&& self.working_time_in_force == other.working_time_in_force
        &&& self.working_strategy_id == other.working_strategy_id
        &&& self.working_strategy_type == other.working_strategy_type
        &&& self.pending_side == other.pending_side
        &&& self.pending_quantity == other.pending_quantity
        &&& self.pending_above_type == other.pending_above_type
        &&& self.pending_above_client_order_id == other.pending_above_client_order_id
        &&& self.pending_above_price == other.pending_above_price
        &&& self.pending_above_stop_price == other.pending_above_stop_price
        &&& self.pending_above_trailing_delta == other.pending_above_trailing_delta
        &&& self.pending_above_iceberg_quantity == other.pending_above_iceberg_quantity
        &&& self.pending_above_time_in_force == other.pending_above_time_in_force
        &&& self.pending_above_strategy_id == other.pending_above_strategy_id
        &&& self.pending_above_strategy_type == other.pending_above_strategy_type
        &&& self.pending_below_type == other.pending_below_type
        &&& self.pending_below_client_order_id == other.pending_below_client_order_id
        &&& self.pending_below_price == other.pending_below_price
        &&& self.pending_below_stop_price == other.pending_below_stop_price
        &&& self.pending_below_trailing_delta == other.pending_below_trailing_delta
        &&& self.pending_below_iceberg_quantity == other.pending_below_iceberg_quantity
        &&& self.pending_below_time_in_force == other.pending_below_time_in_force
        &&& self.pending_below_strategy_id == other.pending_below_strategy_id
        &&& self.pending_below_strategy_type == other.pending_below_strategy_type
        &&& self.response_type == other.response_type
        &&& self.self_trade_prevention_mode == other.self_trade_prevention_mode
    }

    /// The symbol may not be blank; the working order is limit (with a time in
    /// force) or limit-maker; the working price and quantity and the pending
    /// quantity are greater than zero; the pending above type is known; and the
    /// pending orders have what `pending_above_validation` and
    /// `pending_below_validation` ask for.
    pub open spec fn validation(&self) -> Result<(), InvalidParameter> {
        if blank(self.symbol@) {
            Err(InvalidParameter::Empty { parameter: "symbol" })
        } else if self.working_type != OrderType::Limit && self.working_type != OrderType::LimitMaker {
            Err(
                InvalidParameter::Invalid {
                    parameter: "working_type",
                    reason: "must be LIMIT or LIMIT_MAKER",
                },
            )
        } else if self.working_type == OrderType::Limit && self.working_time_in_force is None {
            Err(InvalidParameter::Empty { parameter: "working_time_in_force" })
        } else if !self.working_price.is_positive() {
            Err(
                InvalidParameter::Invalid {
                    parameter: "working_price",
                    reason: "must be greater than 0",
                },
            )
        } else if !self.working_quantity.is_positive() {
            Err(
                InvalidParameter::Invalid {
                    parameter: "working_quantity",
                    reason: "must be greater than 0",
                },
            )
        } else if !self.pending_quantity.is_positive() {
            Err(
                InvalidParameter::Invalid {
                    parameter: "pending_quantity",
                    reason: "must be greater than 0",
                },
            )
        } else if self.pending_above_type == OrderType::Unknown {
            Err(
                InvalidParameter::Invalid {
                    parameter: "pending_above_type",
                    reason: "must be a valid order type",
                },
            )
        } else if self.pending_above_validation() is Err {
            self.pending_above_validation()
        } else {
            self.pending_below_validation()
        }
    }

    /// What the order type of the pending above order asks for: a limit-maker
    /// order a price; a stop-loss or take-profit order a stop price or trailing
    /// delta; their limit variants a price, a stop price or trailing delta and a
    /// time in force. A limit or market order is refused.
    pub open spec fn pending_above_validation(&self) -> Result<(), InvalidParameter> {
        match self.pending_above_type {
            OrderType::LimitMaker => {
                if self.pending_above_price is None {
                    Err(InvalidParameter::Empty { parameter: "pending_above_price" })
                } else {
                    Ok(())
                }
            },
            OrderType::StopLoss | OrderType::TakeProfit => {
                if self.pending_above_stop_price is None && self.pending_above_trailing_delta is None {
                    Err(
                        InvalidParameter::Empty {
                            parameter: "pending_above_stop_price or pending_above_trailing_delta",
                        },
                    )
                } else {
                    Ok(())
                }
            },
            OrderType::StopLossLimit | OrderType::TakeProfitLimit => {
                if self.pending_above_price is None {
                    Err(InvalidParameter::Empty { parameter: "pending_above_price" })
                } else if self.pending_above_stop_price is None && self.pending_above_trailing_delta is None {
                    Err(
                        InvalidParameter::Empty {
                            parameter: "pending_above_stop_price or pending_above_trailing_delta",
                        },
                    )
                } else if self.pending_above_time_in_force is None {
                    Err(InvalidParameter::Empty { parameter: "pending_above_time_in_force" })
                } else {
                    Ok(())
                }
            },
            _ => Err(
                InvalidParameter::Invalid {
                    parameter: "pending_above_type",
                    reason: "must be STOP_LOSS_LIMIT, STOP_LOSS, LIMIT_MAKER, TAKE_PROFIT, or TAKE_PROFIT_LIMIT",
                },
            ),
        }
    }

    /// What the order type of the pending below order, where there is one, asks
    /// for: as for the pending above order.
    pub open spec fn pending_below_validation(&self) -> Result<(), InvalidParameter> {
        match self.pending_below_type {
            None => Ok(()),
            Some(below_type) => {
                match below_type {
                    OrderType::LimitMaker => {
                        if self.pending_below_price is None {
                            Err(InvalidParameter::Empty { parameter: "pending_below_price" })
                        } else {
                            Ok(())
                        }
                    },
                    OrderType::StopLoss | OrderType::TakeProfit => {
                        if self.pending_below_stop_price is None && self.pending_below_trailing_delta is None {
                            Err(
                                InvalidParameter::Empty {
                                    parameter: "pending_below_stop_price or pending_below_trailing_delta",
                                },
                            )
                        } else {
                            Ok(())
                        }
                    },
                    OrderType::StopLossLimit | OrderType::TakeProfitLimit => {
                        if self.pending_below_price is None {
                            Err(InvalidParameter::Empty { parameter: "pending_below_price" })
                        } else if self.pending_below_stop_price is None && self.pending_below_trailing_delta is None {
                            Err(
                                InvalidParameter::Empty {
                                    parameter: "pending_below_stop_price or pending_below_trailing_delta",
                                },
                            )
                        } else if self.pending_below_time_in_force is None {
                            Err(
                                InvalidParameter::Empty {
                                    parameter: "pending_below_time_in_force",
                                },
                            )
                        } else {
                            Ok(())
                        }
                    },
                    _ => Err(
                        InvalidParameter::Invalid {
                            parameter: "pending_below_type",
                            reason: "must be STOP_LOSS, STOP_LOSS_LIMIT, TAKE_PROFIT, or TAKE_PROFIT_LIMIT",
                        },
                    ),
                }
            },
        }
    }
}

impl OtocoOrderSpec<Unvalidated> {
    /// An order list on `symbol` with the given working order and pending above
    /// order, with no optional parameter.
    pub fn new(
        symbol: &str,
        working_type: OrderType,
        working_side: OrderSide,
        working_price: Decimal,
        working_quantity: Decimal,
        pending_side: OrderSide,
        pending_quantity: Decimal,
        pending_above_type: OrderType,
    ) -> (r: Self)
        ensures
            r.symbol@ == symbol@,
            r.list_client_order_id is None,
            r.working_type == working_type,
            r.working_side == working_side,
            r.working_client_order_id is None,
            r.working_price == working_price,
            r.working_quantity == working_quantity,
            r.working_iceberg_quantity is None,
            r.working_time_in_force is None,
            r.working_strategy_id is None,
            r.working_strategy_type is None,
            r.pending_side == pending_side,
            r.pending_quantity == pending_quantity,
            r.pending_above_type == pending_above_type,
            r.pending_above_client_order_id is None,
            r.pending_above_price is None,
            r.pending_above_stop_price is None,
            r.pending_above_trailing_delta is None,
            r.pending_above_iceberg_quantity is None,
            r.pending_above_time_in_force is None,
            r.pending_above_strategy_id is None,
            r.pending_above_strategy_type is None,
            r.pending_below_type is None,
            r.pending_below_client_order_id is None,
            r.pending_below_price is None,
            r.pending_below_stop_price is None,
            r.pending_below_trailing_delta is None,
            r.pending_below_iceberg_quantity is None,
            r.pending_below_time_in_force is None,
            r.pending_below_strategy_id is None,
            r.pending_below_strategy_type is None,
            r.response_type is None,
            r.self_trade_prevention_mode is None,
    {
        OtocoOrderSpec {
            symbol: symbol.to_owned(),
            list_client_order_id: None,
            working_type: working_type,
            working_side: working_side,
            working_client_order_id: None,
            working_price: working_price,
            working_quantity: working_quantity,
            working_iceberg_quantity: None,
            working_time_in_force: None,
            working_strategy_id: None,
            working_strategy_type: None,
            pending_side: pending_side,
            pending_quantity: pending_quantity,
            pending_above_type: pending_above_type,
            pending_above_client_order_id: None,
            pending_above_price: None,
            pending_above_stop_price: None,
            pending_above_trailing_delta: None,
            pending_above_iceberg_quantity: None,
            pending_above_time_in_force: None,
            pending_above_strategy_id: None,
            pending_above_strategy_type: None,
            pending_below_type: None,
            pending_below_client_order_id: None,
            pending_below_price: None,
            pending_below_stop_price: None,
            pending_below_trailing_delta: None,
            pending_below_iceberg_quantity: None,
            pending_below_time_in_force: None,
            pending_below_strategy_id: None,
            pending_below_strategy_type: None,
            response_type: None,
            self_trade_prevention_mode: None,
            state: Unvalidated,
        }
    }

    /// Sets the client ID of the order list.
    pub fn with_list_client_order_id(self, client_id: &str) -> (r: Self)
        ensures
            r == (OtocoOrderSpec { list_client_order_id: r.list_client_order_id, ..self }),
            r.list_client_order_id matches Some(v) && v@ == client_id@,
    {
        OtocoOrderSpec { list_client_order_id: Some(client_id.to_owned()), ..self }
    }

    /// Sets the limit price of the pending above order.
    pub fn with_pending_above_price(self, price: Decimal) -> (r: Self)
        ensures
            r == (OtocoOrderSpec { pending_above_price: Some(price), ..self }),
    {
        OtocoOrderSpec { pending_above_price: Some(price), ..self }
    }

    /// Sets the stop price of the pending above order.
    pub fn with_pending_above_stop_price(self, stop_price: Decimal) -> (r: Self)
        ensures
            r == (OtocoOrderSpec { pending_above_stop_price: Some(stop_price), ..self }),
    {
        OtocoOrderSpec { pending_above_stop_price: Some(stop_price), ..self }
    }

    /// Sets how long the pending above order stays active.
    pub fn with_pending_above_time_in_force(self, time_in_force: TimeInForce) -> (r: Self)
        ensures
            r == (OtocoOrderSpec { pending_above_time_in_force: Some(time_in_force), ..self }),
    {
        OtocoOrderSpec { pending_above_time_in_force: Some(time_in_force), ..self }
    }

    /// Adds a pending below order of `below_type`.
    pub fn with_pending_below_type(self, below_type: OrderType) -> (r: Self)
        ensures
            r == (OtocoOrderSpec { pending_below_type: Some(below_type), ..self }),
    {
        OtocoOrderSpec { pending_below_type: Some(below_type), ..self }
    }

    /// Sets the limit price of the pending below order.
    pub fn with_pending_below_price(self, price: Decimal) -> (r: Self)
        ensures
            r == (OtocoOrderSpec { pending_below_price: Some(price), ..self }),
    {
        OtocoOrderSpec { pending_below_price: Some(price), ..self }
    }

    /// Sets the stop price of the pending below order.
    pub fn with_pending_below_stop_price(self, stop_price: Decimal) -> (r: Self)
        ensures
            r == (OtocoOrderSpec { pending_below_stop_price: Some(stop_price), ..self }),
    {
        OtocoOrderSpec { pending_below_stop_price: Some(stop_price), ..self }
    }

    /// Sets how long the pending below order stays active.
    pub fn with_pending_below_time_in_force(self, time_in_force: TimeInForce) -> (r: Self)
        ensures
            r == (OtocoOrderSpec { pending_below_time_in_force: Some(time_in_force), ..self }),
    {
        OtocoOrderSpec { pending_below_time_in_force: Some(time_in_force), ..self }
    }

    /// Sets how long the working order stays active.
    pub fn with_working_time_in_force(self, time_in_force: TimeInForce) -> (r: Self)
        ensures
            r == (OtocoOrderSpec { working_time_in_force: Some(time_in_force), ..self }),
    {
        OtocoOrderSpec { working_time_in_force: Some(time_in_force), ..self }
    }

    /// Sets the response type.
    pub fn with_response_type(self, response_type: OrderResponseType) -> (r: Self)
        ensures
            r == (OtocoOrderSpec { response_type: Some(response_type), ..self }),
    {
        OtocoOrderSpec { response_type: Some(response_type), ..self }
    }

    /// Sets the self-trade prevention mode.
    pub fn with_self_trade_prevention_mode(self, stp_mode: SelfTradePreventionMode) -> (r: Self)
        ensures
            r == (OtocoOrderSpec { self_trade_prevention_mode: Some(stp_mode), ..self }),
    {
        OtocoOrderSpec { self_trade_prevention_mode: Some(stp_mode), ..self }
    }

    /// Checks the parameters as `validation` states; on success the
    /// same parameters come back as a validated specification.
    pub fn build(self) -> (r: Result<OtocoOrderSpec<Validated>, InvalidParameter>)
        ensures
            match self.validation() {
                Ok(_) => r matches Ok(v) && self.same_parameters(&v),
                Err(e) => r == Err::<OtocoOrderSpec<Validated>, InvalidParameter>(e),
            },
            r matches Ok(v) ==> v.validation() is Ok,
    {
        if let Err(e) = self.validate() {
            return Err(e);
        }
        Ok(OtocoOrderSpec {
            symbol: self.symbol,
            list_client_order_id: self.list_client_order_id,
            working_type: self.working_type,
            working_side: self.working_side,
            working_client_order_id: self.working_client_order_id,
            working_price: self.working_price,
            working_quantity: self.working_quantity,
            working_iceberg_quantity: self.working_iceberg_quantity,
            working_time_in_force: self.working_time_in_force,
            working_strategy_id: self.working_strategy_id,
            working_strategy_type: self.working_strategy_type,
            pending_side: self.pending_side,
            pending_quantity: self.pending_quantity,
            pending_above_type: self.pending_above_type,
            pending_above_client_order_id: self.pending_above_client_order_id,
            pending_above_price: self.pending_above_price,
            pending_above_stop_price: self.pending_above_stop_price,
            pending_above_trailing_delta: self.pending_above_trailing_delta,
            pending_above_iceberg_quantity: self.pending_above_iceberg_quantity,
            pending_above_time_in_force: self.pending_above_time_in_force,
            pending_above_strategy_id: self.pending_above_strategy_id,
            pending_above_strategy_type: self.pending_above_strategy_type,
            pending_below_type: self.pending_below_type,
            pending_below_client_order_id: self.pending_below_client_order_id,
            pending_below_price: self.pending_below_price,
            pending_below_stop_price: self.pending_below_stop_price,
            pending_below_trailing_delta: self.pending_below_trailing_delta,
            pending_below_iceberg_quantity: self.pending_below_iceberg_quantity,
            pending_below_time_in_force: self.pending_below_time_in_force,
            pending_below_strategy_id: self.pending_below_strategy_id,
            pending_below_strategy_type: self.pending_below_strategy_type,
            response_type: self.response_type,
            self_trade_prevention_mode: self.self_trade_prevention_mode,
            state: Validated,
        })
    }

    fn validate(&self) -> (r: Result<(), InvalidParameter>)
        ensures
            r == self.validation(),
    {
        if is_blank(self.symbol.as_str()) {
            return Err(InvalidParameter::Empty { parameter: "symbol" });
        }
        match self.working_type {
            OrderType::Limit => {
                if self.working_time_in_force.is_none() {
                    return Err(InvalidParameter::Empty { parameter: "working_time_in_force" });
                }
            },
            OrderType::LimitMaker => {},
            _ => {
                return Err(
                    InvalidParameter::Invalid {
                        parameter: "working_type",
                        reason: "must be LIMIT or LIMIT_MAKER",
                    },
                );
            },
        }
        if !self.working_price.is_greater_than_zero() {
            return Err(
                InvalidParameter::Invalid {
                    parameter: "working_price",
                    reason: "must be greater than 0",
                },
            );
        }
        if !self.working_quantity.is_greater_than_zero() {
            return Err(
                InvalidParameter::Invalid {
                    parameter: "working_quantity",
                    reason: "must be greater than 0",
                },
            );
        }
        if !self.pending_quantity.is_greater_than_zero() {
            return Err(
                InvalidParameter::Invalid {
                    parameter: "pending_quantity",
                    reason: "must be greater than 0",
                },
            );
        }
        if let OrderType::Unknown = self.pending_above_type {
            return Err(
                InvalidParameter::Invalid {
                    parameter: "pending_above_type",
                    reason: "must be a valid order type",
                },
            );
        }
        match self.pending_above_type {
            OrderType::LimitMaker => {
                if self.pending_above_price.is_none() {
                    return Err(InvalidParameter::Empty { parameter: "pending_above_price" });
                }
            },
            OrderType::StopLoss | OrderType::TakeProfit => {
                if self.pending_above_stop_price.is_none() && self.pending_above_trailing_delta.is_none() {
                    return Err(
                        InvalidParameter::Empty {
                            parameter: "pending_above_stop_price or pending_above_trailing_delta",
                        },
                    );
                }
            },
            OrderType::StopLossLimit | OrderType::TakeProfitLimit => {
                if self.pending_above_price.is_none() {
                    return Err(InvalidParameter::Empty { parameter: "pending_above_price" });
                }
                if self.pending_above_stop_price.is_none() && self.pending_above_trailing_delta.is_none() {
                    return Err(
                        InvalidParameter::Empty {
                            parameter: "pending_above_stop_price or pending_above_trailing_delta",
                        },
                    );
                }
                if self.pending_above_time_in_force.is_none() {
                    return Err(
                        InvalidParameter::Empty {
                            parameter: "pending_above_time_in_force",
                        },
                    );
                }
            },
            _ => {
                return Err(
                    InvalidParameter::Invalid {
                        parameter: "pending_above_type",
                        reason: "must be STOP_LOSS_LIMIT, STOP_LOSS, LIMIT_MAKER, TAKE_PROFIT, or TAKE_PROFIT_LIMIT",
                    },
                );
            },
        }
        if let Some(below_type) = self.pending_below_type {
            match below_type {
                OrderType::LimitMaker => {
                    if self.pending_below_price.is_none() {
                        return Err(InvalidParameter::Empty { parameter: "pending_below_price" });
                    }
                },
                OrderType::StopLoss | OrderType::TakeProfit => {
                    if self.pending_below_stop_price.is_none() && self.pending_below_trailing_delta.is_none() {
                        return Err(
                            InvalidParameter::Empty {
                                parameter: "pending_below_stop_price or pending_below_trailing_delta",
                            },
                        );
                    }
                },
                OrderType::StopLossLimit | OrderType::TakeProfitLimit => {
                    if self.pending_below_price.is_none() {
                        return Err(InvalidParameter::Empty { parameter: "pending_below_price" });
                    }
                    if self.pending_below_stop_price.is_none() && self.pending_below_trailing_delta.is_none() {
                        return Err(
                            InvalidParameter::Empty {
                                parameter: "pending_below_stop_price or pending_below_trailing_delta",
                            },
                        );
                    }
                    if self.pending_below_time_in_force.is_none() {
                        return Err(
                            InvalidParameter::Empty {
                                parameter: "pending_below_time_in_force",
                            },
                        );
                    }
                },
                _ => {
                    return Err(
                        InvalidParameter::Invalid {
                            parameter: "pending_below_type",
                            reason: "must be STOP_LOSS, STOP_LOSS_LIMIT, TAKE_PROFIT, or TAKE_PROFIT_LIMIT",
                        },
                    );
                },
            }
        }
        Ok(())
    }
}

} // verus!
