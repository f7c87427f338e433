use vstd::prelude::*;

use super::common::{
    is_maker_or_take_profit, is_stop_loss, maker_or_take_profit, stop_loss, Unvalidated, Validated,
};
use crate::decimal::Decimal;
use crate::enums::{OrderResponseType, OrderSide, OrderType, SelfTradePreventionMode, TimeInForce};
use crate::errors::InvalidParameter;
use crate::text::{blank, is_blank};

verus! {

/// The parameters of a one-cancels-the-other order list: an order above the
/// market price and one below it, of which the first to fill cancels the other.
#[derive(Debug, Clone)]
pub struct OcoOrderSpec<S = Unvalidated> {
    /// The trading pair, such as "BTCUSDT".
    pub symbol: String,
    /// A client-chosen ID for the order list.
    pub list_client_order_id: Option<String>,
    /// Buy or sell (both orders).
    pub side: OrderSide,
    /// The quantity of both orders.
    pub quantity: Decimal,
    /// The kind of the above order.
    pub above_type: OrderType,
    /// A client-chosen ID for the above order.
    pub above_client_order_id: Option<String>,
    /// The visible quantity of the above order, if an iceberg.
    pub above_iceberg_quantity: Option<Decimal>,
    /// The limit price of the above order.
    pub above_price: Option<Decimal>,
    /// The trigger price of the above order.
    pub above_stop_price: Option<Decimal>,
    /// The trailing delta of the above order.
    pub above_trailing_delta: Option<Decimal>,
    /// How long the above order stays active.
    pub above_time_in_force: Option<TimeInForce>,
    /// An ID of the strategy of the above order.
    pub above_strategy_id: Option<u64>,
    /// The type of that strategy (at least 1000000).
    pub above_strategy_type: Option<u32>,
    /// The kind of the below order.
    pub below_type: OrderType,
    /// A client-chosen ID for the below order.
    pub below_client_order_id: Option<String>,
    /// The visible quantity of the below order, if an iceberg.
    pub below_iceberg_quantity: Option<Decimal>,
    /// The limit price of the below order.
    pub below_price: Option<Decimal>,
    /// The trigger price of the below order.
    pub below_stop_price: Option<Decimal>,
    /// The trailing delta of the below order.
    pub below_trailing_delta: Option<Decimal>,
    /// How long the below order stays active.
    pub below_time_in_force: Option<TimeInForce>,
    /// An ID of the strategy of the below order.
    pub below_strategy_id: Option<u64>,
    /// The type of that strategy (at least 1000000).
    pub below_strategy_type: Option<u32>,
    /// How much the response says.
    pub new_order_response_type: Option<OrderResponseType>,
    /// How self-trades are prevented.
    pub self_trade_prevention_mode: Option<SelfTradePreventionMode>,
    /// Whether `build` has checked the parameters.
    pub state: S,
}

impl<S> OcoOrderSpec<S> {
    /// `self` and `other` hold the same parameters.
    pub open spec fn same_parameters<T>(&self, other: &OcoOrderSpec<T>) -> bool {
        &&& self.symbol == other.symbol
        &&& self.list_client_order_id == other.list_client_order_id
        &&& self.side == other.side
        &&& self.quantity == other.quantity
        &&& self.above_type == other.above_type
        &&& self.above_client_order_id == other.above_client_order_id
        &&& self.above_iceberg_quantity == other.above_iceberg_quantity
        &&& self.above_price == other.above_price
        &&& self.above_stop_price == other.above_stop_price
        &&& self.above_trailing_delta == other.above_trailing_delta
        &&& self.above_time_in_force == other.above_time_in_force
        &&& self.above_strategy_id == other.above_strategy_id
        &&& self.above_strategy_type == other.above_strategy_type
        &&& self.below_type == other.below_type
        &&& self.below_client_order_id == other.below_client_order_id
        &&& self.below_iceberg_quantity == other.below_iceberg_quantity
        &&& self.below_price == other.below_price
        &&& self.below_stop_price == other.below_stop_price
        &&& self.below_trailing_delta == other.below_trailing_delta
        &&& self.below_time_in_force == other.below_time_in_force
        &&& self.below_strategy_id == other.below_strategy_id
        &&& self.below_strategy_type == other.below_strategy_type
        &&& self.new_order_response_type == other.new_order_response_type
        &&& self.self_trade_prevention_mode == other.self_trade_prevention_mode
    }

    /// The symbol may not be blank; the quantity is greater than zero; each order
    /// has what its type asks for (`above_validation`, `below_validation`); one
    /// order is limit-maker or take-profit and the other stop-loss; and a strategy
    /// type given is at least 1000000.
    pub open spec fn validation(&self) -> Result<(), InvalidParameter> {
        if blank(self.symbol@) {
            Err(InvalidParameter::Empty { parameter: "symbol" })
        } else if !self.quantity.is_positive() {
            Err(
                InvalidParameter::Invalid {
                    parameter: "quantity",
                    reason: "must be greater than 0",
                },
            )
        } else if self.above_validation() is Err {
            self.above_validation()
        } else if self.below_validation() is Err {
            self.below_validation()
        } else if !(is_maker_or_take_profit(self.above_type) && is_stop_loss(self.below_type) || is_stop_loss(
            self.above_type,
        ) && is_maker_or_take_profit(self.below_type)) {
            Err(
                InvalidParameter::Invalid {
                    parameter: "above_type/below_type",
                    reason: "one order must be LIMIT_MAKER/TAKE_PROFIT/TAKE_PROFIT_LIMIT and the other must be STOP_LOSS/STOP_LOSS_LIMIT",
                },
            )
        } else if self.above_strategy_type matches Some(t) && t < 1000000 {
            Err(
                InvalidParameter::Invalid {
                    parameter: "above_strategy_type",
                    reason: "must be >= 1000000",
                },
            )
        } else if self.below_strategy_type matches Some(t) && t < 1000000 {
            Err(
                InvalidParameter::Invalid {
                    parameter: "below_strategy_type",
                    reason: "must be >= 1000000",
                },
            )
        } else {
            Ok(())
        }
    }

    /// What the order type of the above order asks for: a stop-loss-limit order
    /// a time in force and a price; a take-profit-limit order those and a stop
    /// price or trailing delta; a limit-maker order a price; a take-profit order a
    /// price and a stop price or trailing delta; a stop-loss order a stop price
    /// or trailing delta. Any other type is refused.
    pub open spec fn above_validation(&self) -> Result<(), InvalidParameter> {
        match self.above_type {
            OrderType::StopLossLimit => {
                if self.above_time_in_force is None {
                    Err(
                        InvalidParameter::Invalid {
                            parameter: "above_time_in_force",
                            reason: "required for STOP_LOSS_LIMIT",
                        },
                    )
                } else if self.above_price is None {
                    Err(
                        InvalidParameter::Invalid {
                            parameter: "above_price",
                            reason: "required for STOP_LOSS_LIMIT",
                        },
                    )
                } else {
                    Ok(())
                }
            },
            OrderType::TakeProfitLimit => {
                if self.above_time_in_force is None {
                    Err(
                        InvalidParameter::Invalid {
                            parameter: "above_time_in_force",
                            reason: "required for TAKE_PROFIT_LIMIT",
                        },
                    )
                } else if self.above_price is None {
                    Err(
                        InvalidParameter::Invalid {
                            parameter: "above_price",
                            reason: "required for TAKE_PROFIT_LIMIT",
                        },
                    )
                } else if self.above_stop_price is None && self.above_trailing_delta is None {
                    Err(
                        InvalidParameter::Invalid {
                            parameter: "above_stop_price or above_trailing_delta",
                            reason: "either above_stop_price or above_trailing_delta must be specified for TAKE_PROFIT_LIMIT",
                        },
                    )
                } else {
                    Ok(())
                }
            },
            OrderType::LimitMaker => {
                if self.above_price is None {
                    Err(
                        InvalidParameter::Invalid {
                            parameter: "above_price",
                            reason: "required for LIMIT_MAKER",
                        },
                    )
                } else {
                    Ok(())
                }
            },
            OrderType::TakeProfit => {
                if self.above_price is None {
                    Err(
                        InvalidParameter::Invalid {
                            parameter: "above_price",
                            reason: "required for TAKE_PROFIT",
                        },
                    )
                } else if self.above_stop_price is None && self.above_trailing_delta is None {
                    Err(
                        InvalidParameter::Invalid {
                            parameter: "above_stop_price or above_trailing_delta",
                            reason: "either above_stop_price or above_trailing_delta must be specified",
                        },
                    )
                } else {
                    Ok(())
                }
            },
            OrderType::StopLoss => {
                if self.above_stop_price is None && self.above_trailing_delta is None {
                    Err(
                        InvalidParameter::Invalid {
                            parameter: "above_stop_price or above_trailing_delta",
                            reason: "either above_stop_price or above_trailing_delta must be specified",
                        },
                    )
                } else {
                    Ok(())
                }
            },
            _ => Err(
                InvalidParameter::Invalid {
                    parameter: "above_type",
                    reason: "must be STOP_LOSS_LIMIT, STOP_LOSS, LIMIT_MAKER, TAKE_PROFIT, or TAKE_PROFIT_LIMIT",
                },
            ),
        }
    }

    /// What the order type of the below order asks for: as for the above order,
    /// except that a limit-maker order may not have a time in force and a
    /// take-profit order needs no price. Any other type is refused.
    pub open spec fn below_validation(&self) -> Result<(), InvalidParameter> {
        match self.below_type {
            OrderType::StopLossLimit => {
                if self.below_time_in_force is None {
                    Err(
                        InvalidParameter::Invalid {
                            parameter: "below_time_in_force",
                            reason: "required for STOP_LOSS_LIMIT",
                        },
                    )
                } else if self.below_price is None {
                    Err(
                        InvalidParameter::Invalid {
                            parameter: "below_price",
                            reason: "required for STOP_LOSS_LIMIT",
                        },
                    )
                } else {
                    Ok(())
                }
            },
            OrderType::TakeProfitLimit => {
                if self.below_time_in_force is None {
                    Err(
                        InvalidParameter::Invalid {
                            parameter: "below_time_in_force",
                            reason: "required for TAKE_PROFIT_LIMIT",
                        },
                    )
                } else if self.below_price is None {
                    Err(
                        InvalidParameter::Invalid {
                            parameter: "below_price",
                            reason: "required for TAKE_PROFIT_LIMIT",
                        },
                    )
                } else if self.below_stop_price is None && self.below_trailing_delta is None {
                    Err(
                        InvalidParameter::Invalid {
                            parameter: "below_stop_price or below_trailing_delta",
                            reason: "either below_stop_price or below_trailing_delta must be specified for TAKE_PROFIT_LIMIT",
                        },
                    )
                } else {
                    Ok(())
                }
            },
            OrderType::LimitMaker => {
                if self.below_time_in_force is Some {
                    Err(
                        InvalidParameter::Invalid {
                            parameter: "below_time_in_force",
                            reason: "not needed for LIMIT_MAKER",
                        },
                    )
                } else if self.below_price is None {
                    Err(
                        InvalidParameter::Invalid {
                            parameter: "below_price",
                            reason: "required for LIMIT_MAKER",
                        },
                    )
                } else {
                    Ok(())
                }
            },
            OrderType::StopLoss | OrderType::TakeProfit => {
                if self.below_stop_price is None && self.below_trailing_delta is None {
                    Err(
                        InvalidParameter::Invalid {
                            parameter: "below_stop_price or below_trailing_delta",
                            reason: "either below_stop_price or below_trailing_delta must be specified",
                        },
                    )
                } else {
                    Ok(())
                }
            },
            _ => Err(
                InvalidParameter::Invalid {
                    parameter: "below_type",
                    reason: "must be STOP_LOSS, STOP_LOSS_LIMIT, TAKE_PROFIT, or TAKE_PROFIT_LIMIT",
                },
            ),
        }
    }
}

impl OcoOrderSpec<Unvalidated> {
    /// An order list on `symbol` with orders of `above_type` and `below_type`,
    /// with no optional parameter.
    pub fn new(
        symbol: &str,
        side: OrderSide,
        quantity: Decimal,
        above_type: OrderType,
        below_type: OrderType,
    ) -> (r: Self)
        ensures
            r.symbol@ == symbol@,
            r.list_client_order_id is None,
            r.side == side,
            r.quantity == quantity,
            r.above_type == above_type,
            r.above_client_order_id is None,
            r.above_iceberg_quantity is None,
            r.above_price is None,
            r.above_stop_price is None,
            r.above_trailing_delta is None,
            r.above_time_in_force is None,
            r.above_strategy_id is None,
            r.above_strategy_type is None,
            r.below_type == below_type,
            r.below_client_order_id is None,
            r.below_iceberg_quantity is None,
            r.below_price is None,
            r.below_stop_price is None,
            r.below_trailing_delta is None,
            r.below_time_in_force is None,
            r.below_strategy_id is None,
            r.below_strategy_type is None,
            r.new_order_response_type is None,
            r.self_trade_prevention_mode is None,
    {
        OcoOrderSpec {
            symbol: symbol.to_owned(),
            list_client_order_id: None,
            side: side,
            quantity: quantity,
            above_type: above_type,
            above_client_order_id: None,
            above_iceberg_quantity: None,
            above_price: None,
            above_stop_price: None,
            above_trailing_delta: None,
            above_time_in_force: None,
            above_strategy_id: None,
            above_strategy_type: None,
            below_type: below_type,
            below_client_order_id: None,
            below_iceberg_quantity: None,
            below_price: None,
            below_stop_price: None,
            below_trailing_delta: None,
            below_time_in_force: None,
            below_strategy_id: None,
            below_strategy_type: None,
            new_order_response_type: None,
            self_trade_prevention_mode: None,
            state: Unvalidated,
        }
    }

    /// Sets the client ID of the order list.
    pub fn with_list_client_order_id(self, id: &str) -> (r: Self)
        ensures
            r == (OcoOrderSpec { list_client_order_id: r.list_client_order_id, ..self }),
            r.list_client_order_id matches Some(v) && v@ == id@,
    {
        OcoOrderSpec { list_client_order_id: Some(id.to_owned()), ..self }
    }

    /// Sets the client ID of the above order.
    pub fn with_above_client_order_id(self, id: &str) -> (r: Self)
        ensures
            r == (OcoOrderSpec { above_client_order_id: r.above_client_order_id, ..self }),
            r.above_client_order_id matches Some(v) && v@ == id@,
    {
        OcoOrderSpec { above_client_order_id: Some(id.to_owned()), ..self }
    }

    /// Sets the limit price of the above order.
    pub fn with_above_price(self, price: Decimal) -> (r: Self)
        ensures
            r == (OcoOrderSpec { above_price: Some(price), ..self }),
    {
        OcoOrderSpec { above_price: Some(price), ..self }
    }

    /// Sets the stop price of the above order.
    pub fn with_above_stop_price(self, stop_price: Decimal) -> (r: Self)
        ensures
            r == (OcoOrderSpec { above_stop_price: Some(stop_price), ..self }),
    {
        OcoOrderSpec { above_stop_price: Some(stop_price), ..self }
    }

    /// Sets how long the above order stays active.
    pub fn with_above_time_in_force(self, tif: TimeInForce) -> (r: Self)
        ensures
            r == (OcoOrderSpec { above_time_in_force: Some(tif), ..self }),
    {
        OcoOrderSpec { above_time_in_force: Some(tif), ..self }
    }

    /// Sets the client ID of the below order.
    pub fn with_below_client_order_id(self, id: &str) -> (r: Self)
        ensures
            r == (OcoOrderSpec { below_client_order_id: r.below_client_order_id, ..self }),
            r.below_client_order_id matches Some(v) && v@ == id@,
    {
        OcoOrderSpec { below_client_order_id: Some(id.to_owned()), ..self }
    }

    /// Sets the limit price of the below order.
    pub fn with_below_price(self, price: Decimal) -> (r: Self)
        ensures
            r == (OcoOrderSpec { below_price: Some(price), ..self }),
    {
        OcoOrderSpec { below_price: Some(price), ..self }
    }

    /// Sets the stop price of the below order.
    pub fn with_below_stop_price(self, stop_price: Decimal) -> (r: Self)
        ensures
            r == (OcoOrderSpec { below_stop_price: Some(stop_price), ..self }),
    {
        OcoOrderSpec { below_stop_price: Some(stop_price), ..self }
    }

    /// Sets how long the below order stays active.
    pub fn with_below_time_in_force(self, tif: TimeInForce) -> (r: Self)
        ensures
            r == (OcoOrderSpec { below_time_in_force: Some(tif), ..self }),
    {
        OcoOrderSpec { below_time_in_force: Some(tif), ..self }
    }

    /// Sets the response type.
    pub fn with_response_type(self, response_type: OrderResponseType) -> (r: Self)
        ensures
            r == (OcoOrderSpec { new_order_response_type: Some(response_type), ..self }),
    {
        OcoOrderSpec { new_order_response_type: Some(response_type), ..self }
    }

    /// Sets the self-trade prevention mode.
    pub fn with_self_trade_prevention_mode(self, stp_mode: SelfTradePreventionMode) -> (r: Self)
        ensures
            r == (OcoOrderSpec { self_trade_prevention_mode: Some(stp_mode), ..self }),
    {
        OcoOrderSpec { self_trade_prevention_mode: Some(stp_mode), ..self }
    }

    /// Checks the parameters as `validation` states; on success the
    /// same parameters come back as a validated specification.
    pub fn build(self) -> (r: Result<OcoOrderSpec<Validated>, InvalidParameter>)
        ensures
            match self.validation() {
                Ok(_) => r matches Ok(v) && self.same_parameters(&v),
                Err(e) => r == Err::<OcoOrderSpec<Validated>, InvalidParameter>(e),
            },
            r matches Ok(v) ==> v.validation() is Ok,
    {
        if let Err(e) = self.validate() {
            return Err(e);
        }
        Ok(OcoOrderSpec {
            symbol: self.symbol,
            list_client_order_id: self.list_client_order_id,
            side: self.side,
            quantity: self.quantity,
            above_type: self.above_type,
            above_client_order_id: self.above_client_order_id,
            above_iceberg_quantity: self.above_iceberg_quantity,
            above_price: self.above_price,
            above_stop_price: self.above_stop_price,
            above_trailing_delta: self.above_trailing_delta,
            above_time_in_force: self.above_time_in_force,
            above_strategy_id: self.above_strategy_id,
            above_strategy_type: self.above_strategy_type,
            below_type: self.below_type,
            below_client_order_id: self.below_client_order_id,
            below_iceberg_quantity: self.below_iceberg_quantity,
            below_price: self.below_price,
            below_stop_price: self.below_stop_price,
            below_trailing_delta: self.below_trailing_delta,
            below_time_in_force: self.below_time_in_force,
            below_strategy_id: self.below_strategy_id,
            below_strategy_type: self.below_strategy_type,
            new_order_response_type: self.new_order_response_type,
            self_trade_prevention_mode: self.self_trade_prevention_mode,
            state: Validated,
        })
    }

    fn validate(&self) -> (r: Result<(), InvalidParameter>)
        ensures
            r == self.validation(),
    {
        if is_blank(self.symbol.as_str()) {
            return Err(InvalidParameter::Empty { parameter: "symbol" });
        }
        if !self.quantity.is_greater_than_zero() {
            return Err(
                InvalidParameter::Invalid {
                    parameter: "quantity",
                    reason: "must be greater than 0",
                },
            );
        }
        match self.above_type {
            OrderType::StopLossLimit => {
                if self.above_time_in_force.is_none() {
                    return Err(
                        InvalidParameter::Invalid {
                            parameter: "above_time_in_force",
                            reason: "required for STOP_LOSS_LIMIT",
                        },
                    );
                }
                if self.above_price.is_none() {
                    return Err(
                        InvalidParameter::Invalid {
                            parameter: "above_price",
                            reason: "required for STOP_LOSS_LIMIT",
                        },
                    );
                }
            },
            OrderType::TakeProfitLimit => {
                if self.above_time_in_force.is_none() {
                    return Err(
                        InvalidParameter::Invalid {
                            parameter: "above_time_in_force",
                            reason: "required for TAKE_PROFIT_LIMIT",
                        },
                    );
                }
                if self.above_price.is_none() {
                    return Err(
                        InvalidParameter::Invalid {
                            parameter: "above_price",
                            reason: "required for TAKE_PROFIT_LIMIT",
                        },
                    );
                }
                if self.above_stop_price.is_none() && self.above_trailing_delta.is_none() {
                    return Err(
                        InvalidParameter::Invalid {
                            parameter: "above_stop_price or above_trailing_delta",
                            reason: "either above_stop_price or above_trailing_delta must be specified for TAKE_PROFIT_LIMIT",
                        },
                    );
                }
            },
            OrderType::LimitMaker => {
                if self.above_price.is_none() {
                    return Err(
                        InvalidParameter::Invalid {
                            parameter: "above_price",
                            reason: "required for LIMIT_MAKER",
                        },
                    );
                }
            },
            OrderType::TakeProfit => {
                if self.above_price.is_none() {
                    return Err(
                        InvalidParameter::Invalid {
                            parameter: "above_price",
                            reason: "required for TAKE_PROFIT",
                        },
                    );
                }
                if self.above_stop_price.is_none() && self.above_trailing_delta.is_none() {
                    return Err(
                        InvalidParameter::Invalid {
                            parameter: "above_stop_price or above_trailing_delta",
                            reason: "either above_stop_price or above_trailing_delta must be specified",
                        },
                    );
                }
            },
            OrderType::StopLoss => {
                if self.above_stop_price.is_none() && self.above_trailing_delta.is_none() {
                    return Err(
                        InvalidParameter::Invalid {
                            parameter: "above_stop_price or above_trailing_delta",
                            reason: "either above_stop_price or above_trailing_delta must be specified",
                        },
                    );
                }
            },
            _ => {
                return Err(
                    InvalidParameter::Invalid {
                        parameter: "above_type",
                        reason: "must be STOP_LOSS_LIMIT, STOP_LOSS, LIMIT_MAKER, TAKE_PROFIT, or TAKE_PROFIT_LIMIT",
                    },
                );
            },
        }
        match self.below_type {
            OrderType::StopLossLimit => {
                if self.below_time_in_force.is_none() {
                    return Err(
                        InvalidParameter::Invalid {
                            parameter: "below_time_in_force",
                            reason: "required for STOP_LOSS_LIMIT",
                        },
                    );
                }
                if self.below_price.is_none() {
                    return Err(
                        InvalidParameter::Invalid {
                            parameter: "below_price",
                            reason: "required for STOP_LOSS_LIMIT",
                        },
                    );
                }
            },
            OrderType::TakeProfitLimit => {
                if self.below_time_in_force.is_none() {
                    return Err(
                        InvalidParameter::Invalid {
                            parameter: "below_time_in_force",
                            reason: "required for TAKE_PROFIT_LIMIT",
                        },
                    );
                }
                if self.below_price.is_none() {
                    return Err(
                        InvalidParameter::Invalid {
                            parameter: "below_price",
                            reason: "required for TAKE_PROFIT_LIMIT",
                        },
                    );
                }
                if self.below_stop_price.is_none() && self.below_trailing_delta.is_none() {
                    return Err(
                        InvalidParameter::Invalid {
                            parameter: "below_stop_price or below_trailing_delta",
                            reason: "either below_stop_price or below_trailing_delta must be specified for TAKE_PROFIT_LIMIT",
                        },
                    );
                }
            },
            OrderType::LimitMaker => {
                if self.below_time_in_force.is_some() {
                    return Err(
                        InvalidParameter::Invalid {
                            parameter: "below_time_in_force",
                            reason: "not needed for LIMIT_MAKER",
                        },
                    );
                }
                if self.below_price.is_none() {
                    return Err(
                        InvalidParameter::Invalid {
                            parameter: "below_price",
                            reason: "required for LIMIT_MAKER",
                        },
                    );
                }
            },
            OrderType::StopLoss | OrderType::TakeProfit => {
                if self.below_stop_price.is_none() && self.below_trailing_delta.is_none() {
                    return Err(
                        InvalidParameter::Invalid {
                            parameter: "below_stop_price or below_trailing_delta",
                            reason: "either below_stop_price or below_trailing_delta must be specified",
                        },
                    );
                }
            },
            _ => {
                return Err(
                    InvalidParameter::Invalid {
                        parameter: "below_type",
                        reason: "must be STOP_LOSS, STOP_LOSS_LIMIT, TAKE_PROFIT, or TAKE_PROFIT_LIMIT",
                    },
                );
            },
        }
        let above_is_maker_take = maker_or_take_profit(self.above_type);
        let below_is_maker_take = maker_or_take_profit(self.below_type);
        let above_is_stop = stop_loss(self.above_type);
        let below_is_stop = stop_loss(self.below_type);
        if !((above_is_maker_take && below_is_stop) || (above_is_stop && below_is_maker_take)) {
            return Err(
                InvalidParameter::Invalid {
                    parameter: "above_type/below_type",
                    reason: "one order must be LIMIT_MAKER/TAKE_PROFIT/TAKE_PROFIT_LIMIT and the other must be STOP_LOSS/STOP_LOSS_LIMIT",
                },
            );
        }
        if let Some(t) = self.above_strategy_type {
            if t < 1000000 {
                return Err(
                    InvalidParameter::Invalid {
                        parameter: "above_strategy_type",
                        reason: "must be >= 1000000",
                    },
                );
            }
        }
        if let Some(t) = self.below_strategy_type {
            if t < 1000000 {
                return Err(
                    InvalidParameter::Invalid {
                        parameter: "below_strategy_type",
                        reason: "must be >= 1000000",
                    },
                );
            }
        }
        Ok(())
    }
}

} // verus!
