use vstd::prelude::*;

verus! {

/// The side of an order.
#[derive(Debug, Clone, Copy, PartialEq, Eq, Structural)]
pub enum OrderSide {
    Buy,
    Sell,
}

/// The type of an order.
#[derive(Debug, Clone, Copy, PartialEq, Eq, Structural)]
pub enum OrderType {
    Limit,
    Market,
    StopLoss,
    StopLossLimit,
    TakeProfit,
    TakeProfitLimit,
    LimitMaker,
    /// A type that this library does not know.
    Unknown,
}

/// How long an order stays active.
#[derive(Debug, Clone, Copy, PartialEq, Eq, Structural)]
pub enum TimeInForce {
    /// Good till cancelled.
    GTC,
    /// Immediate or cancel.
    IOC,
    /// Fill or kill.
    FOK,
}

/// How much the exchange answers about a new order.
#[derive(Debug, Clone, Copy, PartialEq, Eq, Structural)]
pub enum OrderResponseType {
    Ack,
    Result,
    Full,
}

/// What the exchange does when an order would trade with another order of
/// the same account.
#[derive(Debug, Clone, Copy, PartialEq, Eq, Structural)]
pub enum SelfTradePreventionMode {
    NoPrevention,
    ExpireTaker,
    ExpireMaker,
    ExpireBoth,
    Decrement,
}

/// The states of an order in which a cancel request may cancel it.
#[derive(Debug, Clone, Copy, PartialEq, Eq, Structural)]
pub enum CancelRestrictions {
    OnlyNew,
    OnlyPartiallyFilled,
}

/// Whether a cancel-replace request places the new order when the cancel fails.
#[derive(Debug, Clone, Copy, PartialEq, Eq, Structural)]
pub enum CancelReplaceMode {
    StopOnFailure,
    AllowFailure,
}

/// What a cancel-replace request does when the order rate limit is exceeded.
#[derive(Debug, Clone, Copy, PartialEq, Eq, Structural)]
pub enum OrderRateLimitExceededMode {
    DoNothing,
    CancelOnly,
}

} // verus!
