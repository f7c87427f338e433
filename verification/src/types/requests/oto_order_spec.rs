use vstd::prelude::*;

use super::common::{is_positive_if_set, positive_if_set, Unvalidated, Validated};
use crate::decimal::Decimal;
use crate::enums::{OrderResponseType, OrderSide, OrderType, SelfTradePreventionMode, TimeInForce};
use crate::errors::InvalidParameter;
use crate::text::{blank, is_blank};

verus! {

/// The parameters of a one-triggers-the-other order list: a working order
/// and a pending order that is placed once the working order fills.
#[derive(Debug, Clone)]
pub struct OtoOrderSpec<S = Unvalidated> {
    /// The trading pair, such as "BTCUSDT".
    pub symbol: String,
    /// A client-chosen ID for the order list.
    pub list_client_order_id: Option<String>,
    /// The kind of the working order (limit or limit-maker).
    pub working_type: OrderType,
    /// Buy or sell (working order).
    pub working_side: OrderSide,
    /// A client-chosen ID for the working order.
    pub working_client_order_id: Option<String>,
    /// The limit price of the working order.
    pub working_price: Decimal,
    /// The quantity of the working order.
    pub working_quantity: Decimal,
    /// The visible quantity of the working order, if an iceberg.
    pub working_iceberg_quantity: Option<Decimal>,
    /// How long the working order stays active.
    pub working_time_in_force: Option<TimeInForce>,
    /// An ID of the strategy of the working order.
    pub working_strategy_id: Option<u64>,
    /// The type of that strategy (at least 1000000).
    pub working_strategy_type: Option<u32>,
    /// The kind of the pending order.
    pub pending_type: OrderType,
    /// Buy or sell (pending order).
    pub pending_side: OrderSide,
    /// A client-chosen ID for the pending order.
    pub pending_client_order_id: Option<String>,
    /// The quantity of the pending order.
    pub pending_quantity: Decimal,
    /// The limit price of the pending order.
    pub pending_price: Option<Decimal>,
    /// The trigger price of the pending order.
    pub pending_stop_price: Option<Decimal>,
    /// The trailing delta of the pending order.
    pub pending_trailing_delta: Option<Decimal>,
    /// The visible quantity of the pending order, if an iceberg.
    pub pending_iceberg_quantity: Option<Decimal>,
    /// How long the pending order stays active.
    pub pending_time_in_force: Option<TimeInForce>,
    /// An ID of the strategy of the pending order.
    pub pending_strategy_id: Option<u64>,
    /// The type of that strategy (at least 1000000).
    pub pending_strategy_type: Option<u32>,
    /// How much the response says.
    pub response_type: Option<OrderResponseType>,
    /// How self-trades are prevented.
    pub self_trade_prevention_mode: Option<SelfTradePreventionMode>,
    /// Whether `build` has checked the parameters.
    pub state: S,
}

impl<S> OtoOrderSpec<S> {
    /// `self` and `other` hold the same parameters.
    pub open spec fn same_parameters<T>(&self, other: &OtoOrderSpec<T>) -> bool {
        &&& self.symbol == other.symbol
        &&& self.list_client_order_id == other.list_client_order_id
        &&& self.working_type == other.working_type
        &&& self.working_side == other.working_side
        &&& self.working_client_order_id == other.working_client_order_id
        &&& self.working_price == other.working_price
        &&& self.working_quantity == other.working_quantity
        &&& self.working_iceberg_quantity == other.working_iceberg_quantity
        &&& self.working_time_in_force == other.working_time_in_force
        &&& self.working_strategy_id == other.working_strategy_id
        &&& self.working_strategy_type == other.working_strategy_type
        &&& self.pending_type == other.pending_type
        &&& self.pending_side == other.pending_side
        &&& self.pending_client_order_id == other.pending_client_order_id
        &&& self.pending_quantity == other.pending_quantity
        &&& self.pending_price == other.pending_price
        &&& self.pending_stop_price == other.pending_stop_price
        &&& self.pending_trailing_delta == other.pending_trailing_delta
        &&& self.pending_iceberg_quantity == other.pending_iceberg_quantity
        &&& self.pending_time_in_force == other.pending_time_in_force
        &&& self.pending_strategy_id == other.pending_strategy_id
        &&& self.pending_strategy_type == other.pending_strategy_type
        &&& self.response_type == other.response_type
        &&& self.self_trade_prevention_mode == other.self_trade_prevention_mode
    }

    /// The symbol may not be blank; the working quantity and price and the pending
    /// quantity are greater than zero; the working order is limit or limit-maker;
    /// every other amount given is greater than zero; a strategy type given is at
    /// least 1000000; and the pending order has what `pending_validation` asks for.
    pub open spec fn validation(&self) -> Result<(), InvalidParameter> {
        if blank(self.symbol@) {
            Err(InvalidParameter::Empty { parameter: "symbol" })
        } else if !self.working_quantity.is_positive() {
            Err(
                InvalidParameter::Invalid {
                    parameter: "working_quantity",
                    reason: "must be greater than 0",
                },
            )
        } else if !self.working_price.is_positive() {
            Err(
                InvalidParameter::Invalid {
                    parameter: "working_price",
                    reason: "must be greater than 0",
                },
            )
        } else if !self.pending_quantity.is_positive() {
            Err(
                InvalidParameter::Invalid {
                    parameter: "pending_quantity",
                    reason: "must be greater than 0",
                },
            )
        } else if self.working_type != OrderType::Limit && self.working_type != OrderType::LimitMaker {
            Err(
                InvalidParameter::Invalid {
                    parameter: "working_type",
                    reason: "must be LIMIT or LIMIT_MAKER",
                },
            )
        } else if !positive_if_set(self.working_iceberg_quantity) {
            Err(
                InvalidParameter::Invalid {
                    parameter: "working_iceberg_quantity",
                    reason: "must be greater than 0",
                },
            )
        } else if self.working_strategy_type matches Some(t) && t < 1000000 {
            Err(
                InvalidParameter::Range {
                    parameter: "working_strategy_type",
                    min: 1000000,
                    max: u32::MAX as i128,
                },
            )
        } else if self.pending_validation() is Err {
            self.pending_validation()
        } else if !positive_if_set(self.pending_price) {
            Err(
                InvalidParameter::Invalid {
                    parameter: "pending_price",
                    reason: "must be greater than 0",
                },
            )
        } else if !positive_if_set(self.pending_stop_price) {
            Err(
                InvalidParameter::Invalid {
                    parameter: "pending_stop_price",
                    reason: "must be greater than 0",
                },
            )
        } else if !positive_if_set(self.pending_trailing_delta) {
            Err(
                InvalidParameter::Invalid {
                    parameter: "pending_trailing_delta",
                    reason: "must be greater than 0",
                },
            )
        } else if !positive_if_set(self.pending_iceberg_quantity) {
            Err(
                InvalidParameter::Invalid {
                    parameter: "pending_iceberg_quantity",
                    reason: "must be greater than 0",
                },
            )
        } else if self.pending_strategy_type matches Some(t) && t < 1000000 {
            Err(
                InvalidParameter::Range {
                    parameter: "pending_strategy_type",
                    min: 1000000,
                    max: u32::MAX as i128,
                },
            )
        } else {
            Ok(())
        }
    }

    /// What the order type of the pending order asks for: a limit order a price
    /// and a time in force; a market order nothing; a stop-loss or take-profit
    /// order a stop price or trailing delta (the limit variants also a price and
    /// a time in force); a limit-maker order a price. An unknown type is refused.
    pub open spec fn pending_validation(&self) -> Result<(), InvalidParameter> {
        match self.pending_type {
            OrderType::Limit => {
                if self.pending_price is None {
                    Err(InvalidParameter::Empty { parameter: "pending_price" })
                } else if self.pending_time_in_force is None {
                    Err(InvalidParameter::Empty { parameter: "pending_time_in_force" })
                } else {
                    Ok(())
                }
            },
            OrderType::Market => {
                Ok(())
            },
            OrderType::StopLoss => {
                if self.pending_stop_price is None && self.pending_trailing_delta is None {
                    Err(
                        InvalidParameter::Required {
                            parameter: "pending_stop_price or pending_trailing_delta",
                        },
                    )
                } else {
                    Ok(())
                }
            },
            OrderType::StopLossLimit => {
                if self.pending_price is None {
                    Err(InvalidParameter::Empty { parameter: "pending_price" })
                } else if self.pending_stop_price is None && self.pending_trailing_delta is None {
                    Err(
                        InvalidParameter::Required {
                            parameter: "pending_stop_price or pending_trailing_delta",
                        },
                    )
                } else if self.pending_time_in_force is None {
                    Err(InvalidParameter::Empty { parameter: "pending_time_in_force" })
                } else {
                    Ok(())
                }
            },
            OrderType::TakeProfit => {
                if self.pending_stop_price is None && self.pending_trailing_delta is None {
                    Err(
                        InvalidParameter::Required {
                            parameter: "pending_stop_price or pending_trailing_delta",
                        },
                    )
                } else {
                    Ok(())
                }
            },
            OrderType::TakeProfitLimit => {
                if self.pending_price is None {
                    Err(InvalidParameter::Empty { parameter: "pending_price" })
                } else if self.pending_stop_price is None && self.pending_trailing_delta is None {
                    Err(
                        InvalidParameter::Required {
                            parameter: "pending_stop_price or pending_trailing_delta",
                        },
                    )
                } else if self.pending_time_in_force is None {
                    Err(InvalidParameter::Empty { parameter: "pending_time_in_force" })
                } else {
                    Ok(())
                }
            },
            OrderType::LimitMaker => {
                if self.pending_price is None {
                    Err(InvalidParameter::Empty { parameter: "pending_price" })
                } else {
                    Ok(())
                }
            },
            _ => Err(
                InvalidParameter::Invalid {
                    parameter: "pending_type",
                    reason: "must be a valid order type for OTO pending orders",
                },
            ),
        }
    }
}

impl OtoOrderSpec<Unvalidated> {
    /// An order list on `symbol` with the given working and pending orders, with
    /// no optional parameter.
    pub fn new(
        symbol: &str,
        working_type: OrderType,
        working_side: OrderSide,
        working_price: Decimal,
        working_quantity: Decimal,
        pending_type: OrderType,
        pending_side: OrderSide,
        pending_quantity: Decimal,
    ) -> (r: Self)
        ensures
            r.symbol@ == symbol@,
            r.list_client_order_id is None,
            r.working_type == working_type,
            r.working_side == working_side,
            r.working_client_order_id is None,
            r.working_price == working_price,
            r.working_quantity == working_quantity,
            r.working_iceberg_quantity is None,
            r.working_time_in_force is None,
            r.working_strategy_id is None,
            r.working_strategy_type is None,
            r.pending_type == pending_type,
            r.pending_side == pending_side,
            r.pending_client_order_id is None,
            r.pending_quantity == pending_quantity,
            r.pending_price is None,
            r.pending_stop_price is None,
            r.pending_trailing_delta is None,
            r.pending_iceberg_quantity is None,
            r.pending_time_in_force is None,
            r.pending_strategy_id is None,
            r.pending_strategy_type is None,
            r.response_type is None,
            r.self_trade_prevention_mode is None,
    {
        OtoOrderSpec {
            symbol: symbol.to_owned(),
            list_client_order_id: None,
            working_type: working_type,
            working_side: working_side,
            working_client_order_id: None,
            working_price: working_price,
            working_quantity: working_quantity,
            working_iceberg_quantity: None,
            working_time_in_force: None,
            working_strategy_id: None,
            working_strategy_type: None,
            pending_type: pending_type,
            pending_side: pending_side,
            pending_client_order_id: None,
            pending_quantity: pending_quantity,
            pending_price: None,
            pending_stop_price: None,
            pending_trailing_delta: None,
            pending_iceberg_quantity: None,
            pending_time_in_force: None,
            pending_strategy_id: None,
            pending_strategy_type: None,
            response_type: None,
            self_trade_prevention_mode: None,
            state: Unvalidated,
        }
    }

    /// Sets the client ID of the order list.
    pub fn with_list_client_order_id(self, client_id: &str) -> (r: Self)
        ensures
            r == (OtoOrderSpec { list_client_order_id: r.list_client_order_id, ..self }),
            r.list_client_order_id matches Some(v) && v@ == client_id@,
    {
        OtoOrderSpec { list_client_order_id: Some(client_id.to_owned()), ..self }
    }

    /// Sets the client ID of the working order.
    pub fn with_working_client_order_id(self, client_id: &str) -> (r: Self)
        ensures
            r == (OtoOrderSpec { working_client_order_id: r.working_client_order_id, ..self }),
            r.working_client_order_id matches Some(v) && v@ == client_id@,
    {
        OtoOrderSpec { working_client_order_id: Some(client_id.to_owned()), ..self }
    }

    /// Sets the iceberg quantity of the working order.
    pub fn with_working_iceberg_quantity(self, iceberg_quantity: Decimal) -> (r: Self)
        ensures
            r == (OtoOrderSpec { working_iceberg_quantity: Some(iceberg_quantity), ..self }),
    {
        OtoOrderSpec { working_iceberg_quantity: Some(iceberg_quantity), ..self }
    }

    /// Sets how long the working order stays active.
    pub fn with_working_time_in_force(self, time_in_force: TimeInForce) -> (r: Self)
        ensures
            r == (OtoOrderSpec { working_time_in_force: Some(time_in_force), ..self }),
    {
        OtoOrderSpec { working_time_in_force: Some(time_in_force), ..self }
    }

    /// Sets the strategy ID of the working order.
    pub fn with_working_strategy_id(self, strategy_id: u64) -> (r: Self)
        ensures
            r == (OtoOrderSpec { working_strategy_id: Some(strategy_id), ..self }),
    {
        OtoOrderSpec { working_strategy_id: Some(strategy_id), ..self }
    }

    /// Sets the strategy type of the working order.
    pub fn with_working_strategy_type(self, strategy_type: u32) -> (r: Self)
        ensures
            r == (OtoOrderSpec { working_strategy_type: Some(strategy_type), ..self }),
    {
        OtoOrderSpec { working_strategy_type: Some(strategy_type), ..self }
    }

    /// Sets the client ID of the pending order.
    pub fn with_pending_client_order_id(self, client_id: &str) -> (r: Self)
        ensures
            r == (OtoOrderSpec { pending_client_order_id: r.pending_client_order_id, ..self }),
            r.pending_client_order_id matches Some(v) && v@ == client_id@,
    {
        OtoOrderSpec { pending_client_order_id: Some(client_id.to_owned()), ..self }
    }

    /// Sets the limit price of the pending order.
    pub fn with_pending_price(self, price: Decimal) -> (r: Self)
        ensures
            r == (OtoOrderSpec { pending_price: Some(price), ..self }),
    {
        OtoOrderSpec { pending_price: Some(price), ..self }
    }

    /// Sets the stop price of the pending order.
    pub fn with_pending_stop_price(self, stop_price: Decimal) -> (r: Self)
        ensures
            r == (OtoOrderSpec { pending_stop_price: Some(stop_price), ..self }),
    {
        OtoOrderSpec { pending_stop_price: Some(stop_price), ..self }
    }

    /// Sets the trailing delta of the pending order.
    pub fn with_pending_trailing_delta(self, trailing_delta: Decimal) -> (r: Self)
        ensures
            r == (OtoOrderSpec { pending_trailing_delta: Some(trailing_delta), ..self }),
    {
        OtoOrderSpec { pending_trailing_delta: Some(trailing_delta), ..self }
    }

    /// Sets the iceberg quantity of the pending order.
    pub fn with_pending_iceberg_quantity(self, iceberg_quantity: Decimal) -> (r: Self)
        ensures
            r == (OtoOrderSpec { pending_iceberg_quantity: Some(iceberg_quantity), ..self }),
    {
        OtoOrderSpec { pending_iceberg_quantity: Some(iceberg_quantity), ..self }
    }

    /// Sets how long the pending order stays active.
    pub fn with_pending_time_in_force(self, time_in_force: TimeInForce) -> (r: Self)
        ensures
            r == (OtoOrderSpec { pending_time_in_force: Some(time_in_force), ..self }),
    {
        OtoOrderSpec { pending_time_in_force: Some(time_in_force), ..self }
    }

    /// Sets the strategy ID of the pending order.
    pub fn with_pending_strategy_id(self, strategy_id: u64) -> (r: Self)
        ensures
            r == (OtoOrderSpec { pending_strategy_id: Some(strategy_id), ..self }),
    {
        OtoOrderSpec { pending_strategy_id: Some(strategy_id), ..self }
    }

    /// Sets the strategy type of the pending order.
    pub fn with_pending_strategy_type(self, strategy_type: u32) -> (r: Self)
        ensures
            r == (OtoOrderSpec { pending_strategy_type: Some(strategy_type), ..self }),
    {
        OtoOrderSpec { pending_strategy_type: Some(strategy_type), ..self }
    }

    /// Sets the response type.
    pub fn with_response_type(self, response_type: OrderResponseType) -> (r: Self)
        ensures
            r == (OtoOrderSpec { response_type: Some(response_type), ..self }),
    {
        OtoOrderSpec { response_type: Some(response_type), ..self }
    }

    /// Sets the self-trade prevention mode.
    pub fn with_self_trade_prevention_mode(self, stp_mode: SelfTradePreventionMode) -> (r: Self)
        ensures
            r == (OtoOrderSpec { self_trade_prevention_mode: Some(stp_mode), ..self }),
    {
        OtoOrderSpec { self_trade_prevention_mode: Some(stp_mode), ..self }
    }

    /// Checks the parameters as `validation` states; on success the
    /// same parameters come back as a validated specification.
    pub fn build(self) -> (r: Result<OtoOrderSpec<Validated>, InvalidParameter>)
        ensures
            match self.validation() {
                Ok(_) => r matches Ok(v) && self.same_parameters(&v),
                Err(e) => r == Err::<OtoOrderSpec<Validated>, InvalidParameter>(e),
            },
            r matches Ok(v) ==> v.validation() is Ok,
    {
        if let Err(e) = self.validate() {
            return Err(e);
        }
        Ok(OtoOrderSpec {
            symbol: self.symbol,
            list_client_order_id: self.list_client_order_id,
            working_type: self.working_type,
            working_side: self.working_side,
            working_client_order_id: self.working_client_order_id,
            working_price: self.working_price,
            working_quantity: self.working_quantity,
            working_iceberg_quantity: self.working_iceberg_quantity,
            working_time_in_force: self.working_time_in_force,
            working_strategy_id: self.working_strategy_id,
            working_strategy_type: self.working_strategy_type,
            pending_type: self.pending_type,
            pending_side: self.pending_side,
            pending_client_order_id: self.pending_client_order_id,
            pending_quantity: self.pending_quantity,
            pending_price: self.pending_price,
            pending_stop_price: self.pending_stop_price,
            pending_trailing_delta: self.pending_trailing_delta,
            pending_iceberg_quantity: self.pending_iceberg_quantity,
            pending_time_in_force: self.pending_time_in_force,
            pending_strategy_id: self.pending_strategy_id,
            pending_strategy_type: self.pending_strategy_type,
            response_type: self.response_type,
            self_trade_prevention_mode: self.self_trade_prevention_mode,
            state: Validated,
        })
    }

    fn validate(&self) -> (r: Result<(), InvalidParameter>)
        ensures
            r == self.validation(),
    {
        if is_blank(self.symbol.as_str()) {
            return Err(InvalidParameter::Empty { parameter: "symbol" });
        }
        if !self.working_quantity.is_greater_than_zero() {
            return Err(
                InvalidParameter::Invalid {
                    parameter: "working_quantity",
                    reason: "must be greater than 0",
                },
            );
        }
        if !self.working_price.is_greater_than_zero() {
            return Err(
                InvalidParameter::Invalid {
                    parameter: "working_price",
                    reason: "must be greater than 0",
                },
            );
        }
        if !self.pending_quantity.is_greater_than_zero() {
            return Err(
                InvalidParameter::Invalid {
                    parameter: "pending_quantity",
                    reason: "must be greater than 0",
                },
            );
        }
        match self.working_type {
            OrderType::Limit | OrderType::LimitMaker => {},
            _ => {
                return Err(
                    InvalidParameter::Invalid {
                        parameter: "working_type",
                        reason: "must be LIMIT or LIMIT_MAKER",
                    },
                );
            },
        }
        if !is_positive_if_set(self.working_iceberg_quantity) {
            return Err(
                InvalidParameter::Invalid {
                    parameter: "working_iceberg_quantity",
                    reason: "must be greater than 0",
                },
            );
        }
        if let Some(t) = self.working_strategy_type {
            if t < 1000000 {
                return Err(
                    InvalidParameter::Range {
                        parameter: "working_strategy_type",
                        min: 1000000,
                        max: u32::MAX as i128,
                    },
                );
            }
        }
        match self.pending_type {
            OrderType::Limit => {
                if self.pending_price.is_none() {
                    return Err(InvalidParameter::Empty { parameter: "pending_price" });
                }
                if self.pending_time_in_force.is_none() {
                    return Err(InvalidParameter::Empty { parameter: "pending_time_in_force" });
                }
            },
            OrderType::Market => {},
            OrderType::StopLoss => {
                if self.pending_stop_price.is_none() && self.pending_trailing_delta.is_none() {
                    return Err(
                        InvalidParameter::Required {
                            parameter: "pending_stop_price or pending_trailing_delta",
                        },
                    );
                }
            },
            OrderType::StopLossLimit => {
                if self.pending_price.is_none() {
                    return Err(InvalidParameter::Empty { parameter: "pending_price" });
                }
                if self.pending_stop_price.is_none() && self.pending_trailing_delta.is_none() {
                    return Err(
                        InvalidParameter::Required {
                            parameter: "pending_stop_price or pending_trailing_delta",
                        },
                    );
                }
                if self.pending_time_in_force.is_none() {
                    return Err(InvalidParameter::Empty { parameter: "pending_time_in_force" });
                }
            },
            OrderType::TakeProfit => {
                if self.pending_stop_price.is_none() && self.pending_trailing_delta.is_none() {
                    return Err(
                        InvalidParameter::Required {
                            parameter: "pending_stop_price or pending_trailing_delta",
                        },
                    );
                }
            },
            OrderType::TakeProfitLimit => {
                if self.pending_price.is_none() {
                    return Err(InvalidParameter::Empty { parameter: "pending_price" });
                }
                if self.pending_stop_price.is_none() && self.pending_trailing_delta.is_none() {
                    return Err(
                        InvalidParameter::Required {
                            parameter: "pending_stop_price or pending_trailing_delta",
                        },
                    );
                }
                if self.pending_time_in_force.is_none() {
                    return Err(InvalidParameter::Empty { parameter: "pending_time_in_force" });
                }
            },
            OrderType::LimitMaker => {
                if self.pending_price.is_none() {
                    return Err(InvalidParameter::Empty { parameter: "pending_price" });
                }
            },
            _ => {
                return Err(
                    InvalidParameter::Invalid {
                        parameter: "pending_type",
                        reason: "must be a valid order type for OTO pending orders",
                    },
                );
            },
        }
        if !is_positive_if_set(self.pending_price) {
            return Err(
                InvalidParameter::Invalid {
                    parameter: "pending_price",
                    reason: "must be greater than 0",
                },
            );
        }
        if !is_positive_if_set(self.pending_stop_price) {
            return Err(
                InvalidParameter::Invalid {
                    parameter: "pending_stop_price",
                    reason: "must be greater than 0",
                },
            );
        }
        if !is_positive_if_set(self.pending_trailing_delta) {
            return Err(
                InvalidParameter::Invalid {
                    parameter: "pending_trailing_delta",
                    reason: "must be greater than 0",
                },
            );
        }
        if !is_positive_if_set(self.pending_iceberg_quantity) {
            return Err(
                InvalidParameter::Invalid {
                    parameter: "pending_iceberg_quantity",
                    reason: "must be greater than 0",
                },
            );
        }
        if let Some(t) = self.pending_strategy_type {
            if t < 1000000 {
                return Err(
                    InvalidParameter::Range {
                        parameter: "pending_strategy_type",
                        min: 1000000,
                        max: u32::MAX as i128,
                    },
                );
            }
        }
        Ok(())
    }
}

} // verus!
