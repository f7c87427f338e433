use binance_spot_rs::decimal::Decimal;
use binance_spot_rs::enums::{
    CancelReplaceMode, OrderSide, OrderType, SelfTradePreventionMode, TimeInForce,
};
use binance_spot_rs::errors::InvalidParameter;
use binance_spot_rs::types::requests::{
    AllOrderListsSpec, AllOrdersSpec, AllocationSpec, AmendOrderSpec, CancelAllOrdersSpec,
    CancelOrderListSpec, CancelOrderSpec, CancelReplaceSpec, CommissionRatesSpec, MyTradesSpec,
    OcoOrderSpec, OpenOrderListsSpec, OpenOrdersSpec, OrderListStatusSpec, OrderSpec,
    OtoOrderSpec, OtocoOrderSpec, PreventedMatchesSpec, QueryOrderSpec,
};

fn dec(n: i64) -> Decimal {
    Decimal::new(n, 2)
}

fn invalid(parameter: &'static str, reason: &'static str) -> InvalidParameter {
    InvalidParameter::Invalid { parameter, reason }
}

fn empty(parameter: &'static str) -> InvalidParameter {
    InvalidParameter::Empty { parameter }
}

fn required(parameter: &'static str) -> InvalidParameter {
    InvalidParameter::Required { parameter }
}

#[test]
fn limit_order_with_its_parameters_builds() {
    let order = OrderSpec::new("BTCUSDT", OrderSide::Buy, OrderType::Limit)
        .with_time_in_force(TimeInForce::GTC)
        .with_quantity(dec(100))
        .with_price(dec(5000000))
        .with_client_order_id("my-order")
        .with_self_trade_prevention_mode(SelfTradePreventionMode::ExpireTaker)
        .build()
        .unwrap();
    assert_eq!(order.symbol, "BTCUSDT");
    assert_eq!(order.client_order_id.as_deref(), Some("my-order"));
    assert_eq!(order.quantity.unwrap().mantissa(), 100);
    assert_eq!(order.price.unwrap().scale(), 2);
}

#[test]
fn limit_order_needs_time_in_force_quantity_and_price() {
    let base = || OrderSpec::new("BTCUSDT", OrderSide::Buy, OrderType::Limit);
    assert_eq!(base().build().unwrap_err(), empty("time_in_force"));
    assert_eq!(base().with_time_in_force(TimeInForce::IOC).build().unwrap_err(), empty("quantity"));
    assert_eq!(
        base().with_time_in_force(TimeInForce::IOC).with_quantity(dec(1)).build().unwrap_err(),
        empty("price")
    );
}

#[test]
fn order_amounts_must_be_positive() {
    let market = || OrderSpec::new("BTCUSDT", OrderSide::Sell, OrderType::Market);
    assert_eq!(
        market().with_quantity(dec(0)).build().unwrap_err(),
        invalid("quantity", "must be greater than 0")
    );
    assert_eq!(
        market().with_quote_order_quantity(dec(-5)).build().unwrap_err(),
        invalid("quote_order_quantity", "must be greater than 0")
    );
    assert_eq!(
        market().with_quantity(dec(1)).with_price(dec(0)).build().unwrap_err(),
        invalid("price", "must be greater than 0")
    );
    assert_eq!(
        market().with_quantity(dec(1)).with_quote_order_quantity(dec(1)).build().unwrap_err(),
        InvalidParameter::MutuallyExclusive { first: "quantity", second: "quote_order_quantity" }
    );
    assert_eq!(market().build().unwrap_err(), empty("quantity or quote_order_quantity"));
    assert!(market().with_quote_order_quantity(dec(1)).build().is_ok());
}

#[test]
fn order_strategy_type_and_iceberg_rules() {
    let limit = || {
        OrderSpec::new("BTCUSDT", OrderSide::Buy, OrderType::Limit)
            .with_quantity(dec(1))
            .with_price(dec(1))
    };
    assert_eq!(
        limit().with_time_in_force(TimeInForce::GTC).with_strategy_type(999_999).build().unwrap_err(),
        InvalidParameter::Range { parameter: "strategy_type", min: 1_000_000, max: u32::MAX as i128 }
    );
    assert!(limit().with_time_in_force(TimeInForce::GTC).with_strategy_type(1_000_000).build().is_ok());
    assert_eq!(
        limit().with_time_in_force(TimeInForce::IOC).with_iceberg_quantity(dec(1)).build().unwrap_err(),
        invalid(
            "iceberg_quantity",
            "requires time_in_force to be GTC or order_type to be LIMIT_MAKER"
        )
    );
    assert!(limit().with_time_in_force(TimeInForce::GTC).with_iceberg_quantity(dec(1)).build().is_ok());
    let maker = OrderSpec::new("BTCUSDT", OrderSide::Buy, OrderType::LimitMaker)
        .with_quantity(dec(1))
        .with_price(dec(1))
        .with_iceberg_quantity(dec(1));
    assert!(maker.build().is_ok());
}

#[test]
fn stop_orders_need_a_trigger() {
    for t in [OrderType::StopLoss, OrderType::TakeProfit] {
        let o = OrderSpec::new("BTCUSDT", OrderSide::Sell, t).with_quantity(dec(1));
        assert_eq!(o.build().unwrap_err(), empty("stop_price or trailing_delta"));
        let o = OrderSpec::new("BTCUSDT", OrderSide::Sell, t).with_quantity(dec(1)).with_trailing_delta(dec(10));
        assert!(o.build().is_ok());
    }
    for t in [OrderType::StopLossLimit, OrderType::TakeProfitLimit] {
        let o = OrderSpec::new("BTCUSDT", OrderSide::Sell, t)
            .with_time_in_force(TimeInForce::FOK)
            .with_quantity(dec(1))
            .with_price(dec(1));
        assert_eq!(o.build().unwrap_err(), empty("stop_price or trailing_delta"));
        let o = OrderSpec::new("BTCUSDT", OrderSide::Sell, t)
            .with_time_in_force(TimeInForce::FOK)
            .with_quantity(dec(1))
            .with_price(dec(1))
            .with_stop_price(dec(1));
        assert!(o.build().is_ok());
    }
    assert_eq!(
        OrderSpec::new("BTCUSDT", OrderSide::Buy, OrderType::Unknown).build().unwrap_err(),
        invalid("order_type", "must be a valid order type")
    );
}

#[test]
fn cancel_replace_rules() {
    let base = |t| CancelReplaceSpec::new("BTCUSDT", CancelReplaceMode::StopOnFailure, OrderSide::Buy, t);
    assert_eq!(
        base(OrderType::Market).build().unwrap_err(),
        required("cancel_order_id or cancel_origin_client_order_id")
    );
    assert_eq!(
        base(OrderType::Market).with_cancel_order_id(1).build().unwrap_err(),
        required("quantity or quote_order_quantity")
    );
    assert_eq!(
        base(OrderType::Market)
            .with_cancel_original_client_order_id("old")
            .with_quantity(dec(1))
            .with_quote_order_quantity(dec(1))
            .build()
            .unwrap_err(),
        InvalidParameter::MutuallyExclusive { first: "quantity", second: "quote_order_quantity" }
    );
    assert_eq!(
        base(OrderType::Limit).with_cancel_order_id(1).with_price(dec(0)).build().unwrap_err(),
        InvalidParameter::Range { parameter: "price", min: 0, max: 79228162514264337593543950335 }
    );
    assert_eq!(
        base(OrderType::Limit).with_cancel_order_id(1).with_strategy_type(5).build().unwrap_err(),
        InvalidParameter::Range { parameter: "strategy_type", min: 1_000_000, max: i32::MAX as i128 }
    );
    assert_eq!(
        base(OrderType::Limit).with_cancel_order_id(1).build().unwrap_err(),
        required("time_in_force")
    );
    let ok = base(OrderType::Limit)
        .with_cancel_order_id(1)
        .with_time_in_force(TimeInForce::GTC)
        .with_price(dec(1))
        .with_quantity(dec(1))
        .with_new_client_order_id("new")
        .build()
        .unwrap();
    assert_eq!(ok.cancel_order_id, Some(1));
    assert!(base(OrderType::Unknown).with_cancel_order_id(1).build().is_ok());
}

#[test]
fn oco_pairs_a_limit_side_with_a_stop_side() {
    let oco = |above, below| OcoOrderSpec::new("BTCUSDT", OrderSide::Sell, dec(1), above, below);
    let ok = oco(OrderType::LimitMaker, OrderType::StopLoss)
        .with_above_price(dec(2))
        .with_below_stop_price(dec(1));
    assert!(ok.build().is_ok());
    assert_eq!(
        oco(OrderType::LimitMaker, OrderType::LimitMaker)
            .with_above_price(dec(2))
            .with_below_price(dec(1))
            .build()
            .unwrap_err(),
        invalid(
            "above_type/below_type",
            "one order must be LIMIT_MAKER/TAKE_PROFIT/TAKE_PROFIT_LIMIT and the other must be STOP_LOSS/STOP_LOSS_LIMIT"
        )
    );
    assert_eq!(
        oco(OrderType::Limit, OrderType::StopLoss).build().unwrap_err(),
        invalid("above_type", "must be STOP_LOSS_LIMIT, STOP_LOSS, LIMIT_MAKER, TAKE_PROFIT, or TAKE_PROFIT_LIMIT")
    );
    assert_eq!(
        oco(OrderType::StopLossLimit, OrderType::LimitMaker)
            .with_above_time_in_force(TimeInForce::GTC)
            .with_above_price(dec(2))
            .with_below_time_in_force(TimeInForce::GTC)
            .build()
            .unwrap_err(),
        invalid("below_time_in_force", "not needed for LIMIT_MAKER")
    );
    assert_eq!(
        OcoOrderSpec::new("BTCUSDT", OrderSide::Sell, dec(0), OrderType::LimitMaker, OrderType::StopLoss)
            .build()
            .unwrap_err(),
        invalid("quantity", "must be greater than 0")
    );
}

#[test]
fn oto_working_order_must_be_a_limit() {
    let oto = |working, pending| {
        OtoOrderSpec::new("BTCUSDT", working, OrderSide::Buy, dec(1), dec(1), pending, OrderSide::Sell, dec(1))
    };
    assert!(oto(OrderType::Limit, OrderType::Market).build().is_ok());
    assert_eq!(
        oto(OrderType::Market, OrderType::Market).build().unwrap_err(),
        invalid("working_type", "must be LIMIT or LIMIT_MAKER")
    );
    assert_eq!(
        oto(OrderType::Limit, OrderType::Limit).build().unwrap_err(),
        empty("pending_price")
    );
    assert_eq!(
        oto(OrderType::Limit, OrderType::StopLoss).build().unwrap_err(),
        required("pending_stop_price or pending_trailing_delta")
    );
    assert_eq!(
        oto(OrderType::Limit, OrderType::Unknown).build().unwrap_err(),
        invalid("pending_type", "must be a valid order type for OTO pending orders")
    );
    assert_eq!(
        oto(OrderType::Limit, OrderType::Market).with_pending_strategy_type(3).build().unwrap_err(),
        InvalidParameter::Range { parameter: "pending_strategy_type", min: 1_000_000, max: u32::MAX as i128 }
    );
}

#[test]
fn otoco_pending_orders_rules() {
    let otoco = |working, above| {
        OtocoOrderSpec::new("BTCUSDT", working, OrderSide::Buy, dec(1), dec(1), OrderSide::Sell, dec(1), above)
    };
    assert_eq!(
        otoco(OrderType::Limit, OrderType::LimitMaker).build().unwrap_err(),
        empty("working_time_in_force")
    );
    assert_eq!(
        otoco(OrderType::LimitMaker, OrderType::Unknown).build().unwrap_err(),
        invalid("pending_above_type", "must be a valid order type")
    );
    assert_eq!(
        otoco(OrderType::LimitMaker, OrderType::Market).build().unwrap_err(),
        invalid(
            "pending_above_type",
            "must be STOP_LOSS_LIMIT, STOP_LOSS, LIMIT_MAKER, TAKE_PROFIT, or TAKE_PROFIT_LIMIT"
        )
    );
    let ok = otoco(OrderType::LimitMaker, OrderType::LimitMaker)
        .with_pending_above_price(dec(3))
        .with_pending_below_type(OrderType::StopLoss)
        .with_pending_below_stop_price(dec(1));
    assert!(ok.build().is_ok());
    assert_eq!(
        otoco(OrderType::LimitMaker, OrderType::LimitMaker)
            .with_pending_above_price(dec(3))
            .with_pending_below_type(OrderType::Limit)
            .build()
            .unwrap_err(),
        invalid("pending_below_type", "must be STOP_LOSS, STOP_LOSS_LIMIT, TAKE_PROFIT, or TAKE_PROFIT_LIMIT")
    );
}

#[test]
fn order_queries_name_the_order() {
    assert_eq!(
        CancelOrderSpec::new("BTCUSDT").build().unwrap_err(),
        required("orderId or origClientOrderId")
    );
    assert!(CancelOrderSpec::new("BTCUSDT").with_order_id(3).build().is_ok());
    assert_eq!(
        QueryOrderSpec::new("BTCUSDT").build().unwrap_err(),
        invalid("order_id or original_client_order_id", "must be specified")
    );
    assert!(QueryOrderSpec::new("BTCUSDT").with_original_client_order_id("x").build().is_ok());
    assert_eq!(
        AmendOrderSpec::new("BTCUSDT", dec(1)).with_order_id(1).with_original_client_order_id("a").build().unwrap_err(),
        InvalidParameter::MutuallyExclusive { first: "order_id", second: "orig_client_order_id" }
    );
    assert_eq!(
        AmendOrderSpec::new("BTCUSDT", dec(1)).with_original_client_order_id(" ").build().unwrap_err(),
        empty("orig_client_order_id")
    );
    assert_eq!(
        AmendOrderSpec::new("BTCUSDT", dec(0)).with_order_id(1).build().unwrap_err(),
        invalid("new_quantity", "must be greater than 0")
    );
}

#[test]
fn order_lists_are_named_by_one_id() {
    assert_eq!(
        CancelOrderListSpec::new("BTCUSDT").with_order_list_id(1).with_list_client_order_id("a").build().unwrap_err(),
        InvalidParameter::MutuallyExclusive { first: "order_list_id", second: "list_client_order_id" }
    );
    assert_eq!(
        CancelOrderListSpec::new("BTCUSDT").with_order_list_id(1).with_new_client_order_id("").build().unwrap_err(),
        empty("new_client_order_id")
    );
    assert_eq!(
        OrderListStatusSpec::new().build().unwrap_err(),
        required("order_list_id or original_client_order_id")
    );
    assert!(OrderListStatusSpec::default().with_order_list_id(9).build().is_ok());
    assert!(OpenOrderListsSpec::new().build().is_ok());
    assert!(OpenOrderListsSpec::default().build().is_ok());
}

#[test]
fn history_queries_span_at_most_a_day() {
    let day = 86_400_000;
    assert!(AllOrdersSpec::new("BTCUSDT").with_start_time(0).with_end_time(day).build().is_ok());
    assert_eq!(
        AllOrdersSpec::new("BTCUSDT").with_start_time(0).with_end_time(day + 1).build().unwrap_err(),
        invalid("start/end", "time range can not be longer than 24 hours")
    );
    assert_eq!(
        AllocationSpec::new("BTCUSDT").with_start_time(9).with_end_time(9).build().unwrap_err(),
        invalid("start_time/end_time", "end_time must be greater than start_time")
    );
    assert_eq!(
        AllOrderListsSpec::new().with_from_id(1).with_end_time(5).build().unwrap_err(),
        invalid("from_id", "cannot be used with start_time or end_time")
    );
    assert_eq!(
        AllOrderListsSpec::default().with_limit(0).build().unwrap_err(),
        InvalidParameter::Range { parameter: "limit", min: 1, max: 1000 }
    );
    assert_eq!(
        MyTradesSpec::new("BTCUSDT").with_start_time(0).with_end_time(day + 1).build().unwrap_err(),
        invalid("time_range", "cannot be longer than 24 hours")
    );
    assert_eq!(
        MyTradesSpec::new("BTCUSDT").with_order_id(1).with_start_time(0).build().unwrap_err(),
        InvalidParameter::MutuallyExclusive { first: "orderId", second: "startTime/endTime" }
    );
}

#[test]
fn prevented_matches_rules() {
    assert_eq!(
        PreventedMatchesSpec::new("BTCUSDT").build().unwrap_err(),
        invalid("prevented_match_id or order_id", "must be specified")
    );
    assert_eq!(
        PreventedMatchesSpec::new("BTCUSDT").with_prevented_match_id(1).with_from_prevented_match_id(2).build().unwrap_err(),
        invalid("from_prevented_match_id", "requires order_id to be specified")
    );
    assert!(PreventedMatchesSpec::new("BTCUSDT").with_order_id(1).with_from_prevented_match_id(2).with_limit(1000).build().is_ok());
}

#[test]
fn account_queries_on_one_symbol() {
    assert!(OpenOrdersSpec::default().build().is_ok());
    assert_eq!(OpenOrdersSpec::new().with_symbol("").build().unwrap_err(), empty("symbol"));
    assert!(CancelAllOrdersSpec::new("BTCUSDT").build().is_ok());
    assert_eq!(CommissionRatesSpec::new(" ").build().unwrap_err(), empty("symbol"));
}

#[test]
fn decimal_sign_decides_positivity() {
    assert!(Decimal::new(1, 28).is_greater_than_zero());
    assert!(!Decimal::new(0, 0).is_greater_than_zero());
    assert!(!Decimal::new(-1, 3).is_greater_than_zero());
    assert!(Decimal::try_from_i128_with_scale(79228162514264337593543950336, 0).is_none());
    assert!(Decimal::try_from_i128_with_scale(1, 29).is_none());
    let d = Decimal::try_from_i128_with_scale(-79228162514264337593543950335, 28).unwrap();
    assert_eq!(d.mantissa(), -79228162514264337593543950335);
    assert!(!d.is_greater_than_zero());
}
