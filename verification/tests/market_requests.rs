use binance_spot_rs::errors::InvalidParameter;
use binance_spot_rs::types::requests::common::{check_symbols, check_time_zone, check_window_size};
use binance_spot_rs::types::requests::{
    AggregateTradesSpec, AveragePriceSpec, ExchangeInfoSpec, HistoricalTradesSpec, KlinesSpec,
    OrderBookSpec, RecentTradesSpec, Ticker24HrSpec, TickerPriceSpec, TickerRollingWindowSpec,
    TickerTradingDaySpec,
};

fn invalid(parameter: &'static str, reason: &'static str) -> InvalidParameter {
    InvalidParameter::Invalid { parameter, reason }
}

#[test]
fn order_book_keeps_its_parameters() {
    let spec = OrderBookSpec::new("BTCUSDT").with_limit(5).build().unwrap();
    assert_eq!(spec.symbol, "BTCUSDT");
    assert_eq!(spec.limit, Some(5));
}

#[test]
fn order_book_refuses_blank_symbol_and_large_limit() {
    assert_eq!(
        OrderBookSpec::new("  \t").build().unwrap_err(),
        InvalidParameter::Empty { parameter: "symbol" }
    );
    assert_eq!(
        OrderBookSpec::new("BTCUSDT").with_limit(5001).build().unwrap_err(),
        InvalidParameter::Range { parameter: "limit", min: 1, max: 5000 }
    );
    assert!(OrderBookSpec::new("BTCUSDT").with_limit(5000).build().is_ok());
}

#[test]
fn trade_queries_cap_the_limit_at_1000() {
    let range = InvalidParameter::Range { parameter: "limit", min: 1, max: 1000 };
    assert_eq!(RecentTradesSpec::new("ETHBTC").with_limit(1001).build().unwrap_err(), range);
    assert!(RecentTradesSpec::new("ETHBTC").with_limit(1000).build().is_ok());
    assert_eq!(RecentTradesSpec::new("ETHBTC").validate(), Ok(()));
    assert_eq!(HistoricalTradesSpec::new("ETHBTC").with_limit(2000).build().unwrap_err(), range);
    let hist = HistoricalTradesSpec::new("ETHBTC").with_from_id(7).build().unwrap();
    assert_eq!(hist.from_id, Some(7));
    assert_eq!(AggregateTradesSpec::new("ETHBTC").with_limit(1001).build().unwrap_err(), range);
    let agg = AggregateTradesSpec::new("ETHBTC")
        .with_from_id(1)
        .with_start_time(10)
        .with_end_time(20)
        .build()
        .unwrap();
    assert_eq!((agg.from_id, agg.start_time, agg.end_time), (Some(1), Some(10), Some(20)));
}

#[test]
fn average_price_needs_a_symbol() {
    assert!(AveragePriceSpec::new("BNBUSDT").build().is_ok());
    assert_eq!(
        AveragePriceSpec::new("").build().unwrap_err(),
        InvalidParameter::Empty { parameter: "symbol" }
    );
}

#[test]
fn klines_accept_every_known_interval() {
    for interval in [
        "1s", "1m", "3m", "5m", "15m", "30m", "1h", "2h", "4h", "6h", "8h", "12h", "1d", "3d", "1w",
        "1M",
    ] {
        assert!(KlinesSpec::new("BTCUSDT", interval).build().is_ok(), "{}", interval);
    }
}

#[test]
fn klines_refuse_bad_parameters() {
    assert_eq!(
        KlinesSpec::new("BTCUSDT", " ").build().unwrap_err(),
        InvalidParameter::Empty { parameter: "interval" }
    );
    assert_eq!(
        KlinesSpec::new("BTCUSDT", "2m").build().unwrap_err(),
        invalid(
            "interval",
            "must be one of: 1s, 1m, 3m, 5m, 15m, 30m, 1h, 2h, 4h, 6h, 8h, 12h, 1d, 3d, 1w, 1M"
        )
    );
    assert_eq!(
        KlinesSpec::new("BTCUSDT", "1m").with_limit(1001).build().unwrap_err(),
        InvalidParameter::Range { parameter: "limit", min: 1, max: 1000 }
    );
    assert_eq!(
        KlinesSpec::new("BTCUSDT", "1m").with_start_time(5).with_end_time(5).build().unwrap_err(),
        invalid("start_time/end_time", "end_time must be greater than start_time")
    );
    assert_eq!(
        KlinesSpec::new("BTCUSDT", "1m").with_time_zone("15").build().unwrap_err(),
        invalid("time_zone", "timezone hours must be in range [-12 to +14]")
    );
    let ok = KlinesSpec::new("BTCUSDT", "1h").with_time_zone(" -3:30 ").build().unwrap();
    assert_eq!(ok.time_zone.as_deref(), Some(" -3:30 "));
}

#[test]
fn time_zones_in_every_form() {
    for tz in ["0", "8", "-12", "14", "+8", "-1:00", "05:45", "+08:00", " 3 "] {
        assert_eq!(check_time_zone(tz), Ok(()), "{}", tz);
    }
    let format = invalid("time_zone", "timezone format must be like '0', '8', '-1:00', or '05:45'");
    assert_eq!(check_time_zone(""), Err(format));
    assert_eq!(check_time_zone("abc"), Err(format));
    assert_eq!(check_time_zone("1:2:3"), Err(format));
    assert_eq!(check_time_zone("x:00"), Err(invalid("time_zone", "invalid hour format")));
    assert_eq!(check_time_zone("1:-5"), Err(invalid("time_zone", "invalid minute format")));
    assert_eq!(
        check_time_zone("-13"),
        Err(invalid("time_zone", "timezone hours must be in range [-12 to +14]"))
    );
    assert_eq!(
        check_time_zone("15:00"),
        Err(invalid("time_zone", "timezone hours must be in range [-12 to +14]"))
    );
    assert_eq!(check_time_zone("5:60"), Err(invalid("time_zone", "timezone minutes must be 0-59")));
    assert_eq!(
        check_time_zone("99999999999"),
        Err(format),
        "an hour count beyond i32 reads as no number"
    );
}

#[test]
fn window_sizes_in_minutes_hours_and_days() {
    for w in ["1m", "59m", "1h", "23h", "1d", "7d", "+2h"] {
        assert_eq!(check_window_size(w), Ok(()), "{}", w);
    }
    assert_eq!(check_window_size(""), Err(InvalidParameter::Empty { parameter: "window_size" }));
    assert_eq!(check_window_size("0m"), Err(invalid("window_size", "minutes must be 1-59")));
    assert_eq!(check_window_size("60m"), Err(invalid("window_size", "minutes must be 1-59")));
    assert_eq!(check_window_size("24h"), Err(invalid("window_size", "hours must be 1-23")));
    assert_eq!(check_window_size("8d"), Err(invalid("window_size", "days must be 1-7")));
    assert_eq!(
        check_window_size("3w"),
        Err(invalid("window_size", "must end with 'm' (minutes), 'h' (hours), or 'd' (days)"))
    );
    assert_eq!(
        check_window_size("h"),
        Err(invalid("window_size", "must be a number followed by m, h, or d"))
    );
    assert_eq!(
        check_window_size("1.5h"),
        Err(invalid("window_size", "must be a number followed by m, h, or d"))
    );
}

#[test]
fn symbols_lists_are_json_arrays() {
    assert_eq!(check_symbols("[\"BTCUSDT\",\"BNBUSDT\"]", false), Ok(()));
    assert_eq!(check_symbols("  ", false), Err(InvalidParameter::Empty { parameter: "symbols" }));
    assert_eq!(check_symbols("[]", false), Err(InvalidParameter::Empty { parameter: "symbols" }));
    assert_eq!(check_symbols("BTCUSDT", false), Err(invalid("symbols", "must be valid JSON array")));
    assert_eq!(check_symbols("[1, 2]", false), Err(invalid("symbols", "must be valid JSON array")));
    assert_eq!(
        check_symbols("[\"BTCUSDT\", \" \"]", false),
        Err(InvalidParameter::Empty { parameter: "symbols element" })
    );
    let many: Vec<String> = (0..101).map(|i| format!("\"S{}\"", i)).collect();
    let json = format!("[{}]", many.join(","));
    assert_eq!(check_symbols(&json, false), Ok(()));
    assert_eq!(check_symbols(&json, true), Err(invalid("symbols", "maximum 100 symbols allowed")));
}

#[test]
fn with_symbols_writes_a_json_array() {
    let spec = TickerPriceSpec::new().with_symbols(vec!["BTCUSDT", "BNBUSDT"]);
    assert_eq!(spec.symbols.as_deref(), Some("[\"BTCUSDT\",\"BNBUSDT\"]"));
    assert!(spec.build().is_ok());
    assert_eq!(
        TickerPriceSpec::new().with_symbols(vec![]).build().unwrap_err(),
        InvalidParameter::Empty { parameter: "symbols" }
    );
    assert_eq!(
        TickerPriceSpec::new().with_symbols(vec!["BTCUSDT", ""]).build().unwrap_err(),
        InvalidParameter::Empty { parameter: "symbols element" }
    );
}

#[test]
fn ticker_price_symbol_and_symbols_exclude_each_other() {
    assert!(TickerPriceSpec::new().build().is_ok());
    assert_eq!(
        TickerPriceSpec::new().with_symbol(" ").build().unwrap_err(),
        InvalidParameter::Empty { parameter: "symbol" }
    );
    assert_eq!(
        TickerPriceSpec::new().with_symbol("BTCUSDT").with_symbols(vec!["ETHBTC"]).build().unwrap_err(),
        InvalidParameter::MutuallyExclusive { first: "symbol", second: "symbols" }
    );
}

#[test]
fn ticker_24hr_checks_the_ticker_type() {
    assert!(Ticker24HrSpec::new().with_symbol("BTCUSDT").with_ticker_type("MINI").build().is_ok());
    assert!(Ticker24HrSpec::new().with_ticker_type("FULL").build().is_ok());
    assert_eq!(
        Ticker24HrSpec::new().with_ticker_type("full").build().unwrap_err(),
        invalid("ticker_type", "must be either FULL or MINI")
    );
    assert_eq!(
        Ticker24HrSpec::new().with_symbol("A").with_symbols(vec!["B"]).build().unwrap_err(),
        InvalidParameter::MutuallyExclusive { first: "symbol", second: "symbols" }
    );
}

#[test]
fn rolling_window_ticker_needs_a_symbol_and_a_good_window() {
    assert_eq!(
        TickerRollingWindowSpec::new().build().unwrap_err(),
        invalid("symbol or symbols", "must be specified")
    );
    assert!(TickerRollingWindowSpec::new().with_symbol("BTCUSDT").with_window_size("4h").build().is_ok());
    assert_eq!(
        TickerRollingWindowSpec::new().with_symbol("BTCUSDT").with_window_size("25h").build().unwrap_err(),
        invalid("window_size", "hours must be 1-23")
    );
    assert_eq!(
        TickerRollingWindowSpec::new().with_symbols(vec!["A"]).with_ticker_type("X").build().unwrap_err(),
        invalid("ticker_type", "must be either FULL or MINI")
    );
}

#[test]
fn trading_day_ticker_caps_symbols_at_100() {
    let hundred: Vec<String> = (0..100).map(|i| format!("S{}", i)).collect();
    let refs: Vec<&str> = hundred.iter().map(|s| s.as_str()).collect();
    assert!(TickerTradingDaySpec::new().with_symbols(refs.clone()).build().is_ok());
    let mut more = refs;
    more.push("EXTRA");
    assert_eq!(
        TickerTradingDaySpec::new().with_symbols(more).build().unwrap_err(),
        invalid("symbols", "maximum 100 symbols allowed")
    );
    assert_eq!(
        TickerTradingDaySpec::new().build().unwrap_err(),
        invalid("symbol or symbols", "must be specified")
    );
    assert_eq!(
        TickerTradingDaySpec::new().with_symbol("BTCUSDT").with_time_zone("8:75").build().unwrap_err(),
        invalid("time_zone", "timezone minutes must be 0-59")
    );
    assert!(TickerTradingDaySpec::new()
        .with_symbol("BTCUSDT")
        .with_time_zone("-1:00")
        .with_ticker_type("MINI")
        .build()
        .is_ok());
}

#[test]
fn exchange_info_filters_exclude_each_other() {
    assert!(ExchangeInfoSpec::new().build().is_ok());
    assert!(ExchangeInfoSpec::new().with_symbol_status("TRADING").build().is_ok());
    assert!(ExchangeInfoSpec::new().with_permissions(vec!["SPOT", "MARGIN"]).build().is_ok());
    let with_perms = ExchangeInfoSpec::new().with_permissions(vec!["SPOT"]).with_show_permission_sets(false);
    assert_eq!(with_perms.permissions, Some(vec!["SPOT".to_string()]));
    assert_eq!(with_perms.show_permission_sets, Some(false));
    assert_eq!(
        ExchangeInfoSpec::new().with_symbol_status("OPEN").build().unwrap_err(),
        invalid("symbol_status", "must be one of: TRADING, HALT, BREAK")
    );
    assert_eq!(
        ExchangeInfoSpec::new().with_symbol("A").with_symbol_status("HALT").build().unwrap_err(),
        invalid("symbolStatus", "cannot be used with 'symbol' or 'symbols' parameters")
    );
    assert_eq!(
        ExchangeInfoSpec::new().with_symbols(vec!["A"]).with_permissions(vec!["SPOT"]).build().unwrap_err(),
        InvalidParameter::MutuallyExclusive { first: "permissions", second: "symbol/symbols" }
    );
    assert_eq!(
        ExchangeInfoSpec::new().with_symbol("A").with_symbols(vec!["B"]).build().unwrap_err(),
        InvalidParameter::MutuallyExclusive { first: "symbol", second: "symbols" }
    );
}
