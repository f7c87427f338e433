use binance_spot_rs::errors::StreamSpecError;
use binance_spot_rs::streams::specs::{
    AggregateTradeStreamSpec, AllMiniTickersStreamSpec, AllRollingWindowTickersStreamSpec,
    AllTickersStreamSpec, AveragePriceStreamSpec, BookTickerStreamSpec, DiffDepthStreamSpec,
    Interval, KlineStreamSpec, KlineWithTimezoneStreamSpec, PartialBookDepthStreamSpec,
    RollingWindowTickerStreamSpec, StreamSpec, TickerStreamSpec, TimezoneOffset, TradeStreamSpec,
    UserDataStreamSpec, WindowSize,
};
use binance_spot_rs::types::requests::common::{check_time_zone, check_window_size};
use binance_spot_rs::types::requests::KlinesSpec;
use binance_spot_rs::StreamConfig;

fn config() -> StreamConfig {
    StreamConfig {
        aggregate_trade_buffer_size: 1,
        trade_buffer_size: 2,
        kline_buffer_size: 3,
        mini_ticker_buffer_size: 4,
        all_mini_tickers_buffer_size: 5,
        ticker_buffer_size: 6,
        all_tickers_buffer_size: 7,
        rolling_window_ticker_buffer_size: 8,
        all_rolling_window_tickers_buffer_size: 9,
        book_ticker_buffer_size: 10,
        average_price_buffer_size: 11,
        partial_book_depth_buffer_size: 12,
        diff_depth_buffer_size: 13,
        user_data_buffer_size: 14,
    }
}

#[test]
fn symbol_streams_are_named_in_lowercase() {
    assert_eq!(TradeStreamSpec::new("BTCUSDT").stream_name(), "btcusdt@trade");
    assert_eq!(AggregateTradeStreamSpec::new("BnbBtc").stream_name(), "bnbbtc@aggTrade");
    assert_eq!(TickerStreamSpec::new("ETHUSDT").stream_name(), "ethusdt@ticker");
    assert_eq!(BookTickerStreamSpec::new("ETHUSDT").stream_name(), "ethusdt@bookTicker");
    assert_eq!(AveragePriceStreamSpec::new("ETHUSDT").stream_name(), "ethusdt@avgPrice");
}

#[test]
fn kline_stream_names_carry_the_interval() {
    assert_eq!(KlineStreamSpec::new("BTCUSDT", Interval::OneMinute).stream_name(), "btcusdt@kline_1m");
    assert_eq!(KlineStreamSpec::monthly("BTCUSDT").stream_name(), "btcusdt@kline_1M");
    assert_eq!(KlineStreamSpec::one_second("BTCUSDT").interval, Interval::OneSecond);
    assert_eq!(
        KlineWithTimezoneStreamSpec::hourly_utc_plus_8("BTCUSDT").stream_name(),
        "btcusdt@kline_1h@+08:00"
    );
    assert_eq!(
        KlineWithTimezoneStreamSpec::new("BTCUSDT", Interval::OneDay, TimezoneOffset::UtcPlus8).stream_name(),
        "btcusdt@kline_1d@+08:00"
    );
}

#[test]
fn depth_stream_names() {
    assert_eq!(DiffDepthStreamSpec::new("BTCUSDT").stream_name(), "btcusdt@depth");
    assert_eq!(DiffDepthStreamSpec::with_fast_updates("BTCUSDT").stream_name(), "btcusdt@depth@100ms");
    assert_eq!(PartialBookDepthStreamSpec::levels_5("BTCUSDT").stream_name(), "btcusdt@depth5");
    assert_eq!(PartialBookDepthStreamSpec::levels_20_fast("BTCUSDT").stream_name(), "btcusdt@depth20@100ms");
    assert_eq!(PartialBookDepthStreamSpec::new("BTCUSDT", 10).validate(), Ok(()));
    assert_eq!(
        PartialBookDepthStreamSpec::new("BTCUSDT", 15).validate(),
        Err(StreamSpecError::InvalidLevels)
    );
    assert_eq!(PartialBookDepthStreamSpec::new("", 15).validate(), Err(StreamSpecError::EmptySymbol));
    assert_eq!(PartialBookDepthStreamSpec::new("BTCUSDT", 100).stream_name(), "btcusdt@depth100");
}

#[test]
fn all_market_streams_have_fixed_names() {
    assert_eq!(AllTickersStreamSpec::new().stream_name(), "!ticker@arr");
    assert_eq!(AllMiniTickersStreamSpec::new().stream_name(), "!miniTicker@arr");
    assert_eq!(AllRollingWindowTickersStreamSpec::hourly().stream_name(), "!ticker_1h@arr");
    assert_eq!(
        AllRollingWindowTickersStreamSpec::new(WindowSize::OneDay).stream_name(),
        "!ticker_1d@arr"
    );
    assert_eq!(RollingWindowTickerStreamSpec::four_hourly("BTCUSDT").stream_name(), "btcusdt@ticker_4h");
    assert_eq!(UserDataStreamSpec::new().stream_name(), "userData");
}

#[test]
fn empty_symbols_are_refused() {
    assert_eq!(TradeStreamSpec::new("").validate(), Err(StreamSpecError::EmptySymbol));
    assert_eq!(TradeStreamSpec::new(" ").validate(), Ok(()));
    assert_eq!(KlineStreamSpec::daily("").validate(), Err(StreamSpecError::EmptySymbol));
    assert_eq!(AllTickersStreamSpec::new().validate(), Ok(()));
    assert_eq!(StreamSpecError::EmptySymbol.message(), "Symbol cannot be empty");
    assert_eq!(StreamSpecError::InvalidLevels.message(), "Levels must be 5, 10, or 20");
}

#[test]
fn buffers_and_authentication() {
    let c = config();
    assert_eq!(AggregateTradeStreamSpec::new("A").buffer_size(&c), 1);
    assert_eq!(TradeStreamSpec::new("A").buffer_size(&c), 2);
    assert_eq!(KlineStreamSpec::hourly("A").buffer_size(&c), 3);
    assert_eq!(KlineWithTimezoneStreamSpec::daily_utc_plus_8("A").buffer_size(&c), 3);
    assert_eq!(AllMiniTickersStreamSpec::new().buffer_size(&c), 5);
    assert_eq!(TickerStreamSpec::new("A").buffer_size(&c), 6);
    assert_eq!(AllTickersStreamSpec::new().buffer_size(&c), 7);
    assert_eq!(RollingWindowTickerStreamSpec::daily("A").buffer_size(&c), 8);
    assert_eq!(AllRollingWindowTickersStreamSpec::daily().buffer_size(&c), 9);
    assert_eq!(BookTickerStreamSpec::new("A").buffer_size(&c), 10);
    assert_eq!(AveragePriceStreamSpec::new("A").buffer_size(&c), 11);
    assert_eq!(PartialBookDepthStreamSpec::levels_10("A").buffer_size(&c), 12);
    assert_eq!(DiffDepthStreamSpec::new("A").buffer_size(&c), 13);
    assert_eq!(UserDataStreamSpec::new().buffer_size(&c), 14);
    assert!(UserDataStreamSpec::new().requires_authentication());
    assert!(!TradeStreamSpec::new("A").requires_authentication());
    assert!(!AllTickersStreamSpec::new().requires_authentication());
}

#[test]
fn stream_intervals_are_kline_query_intervals() {
    let all = [
        Interval::OneSecond,
        Interval::OneMinute,
        Interval::ThreeMinutes,
        Interval::FiveMinutes,
        Interval::FifteenMinutes,
        Interval::ThirtyMinutes,
        Interval::OneHour,
        Interval::TwoHours,
        Interval::FourHours,
        Interval::SixHours,
        Interval::EightHours,
        Interval::TwelveHours,
        Interval::OneDay,
        Interval::ThreeDays,
        Interval::OneWeek,
        Interval::OneMonth,
    ];
    for i in all {
        assert!(KlinesSpec::new("BTCUSDT", i.as_str()).build().is_ok(), "{}", i.as_str());
    }
}

#[test]
fn stream_window_sizes_pass_the_query_check() {
    for w in [WindowSize::OneHour, WindowSize::FourHours, WindowSize::OneDay] {
        assert_eq!(check_window_size(w.as_str()), Ok(()));
    }
    assert_eq!(check_time_zone(TimezoneOffset::UtcPlus8.as_str()), Ok(()));
}

#[test]
fn whole_hour_time_zones_from_minus_12_to_14() {
    for h in -20i32..=20 {
        let accepted = check_time_zone(&h.to_string()).is_ok();
        assert_eq!(accepted, (-12..=14).contains(&h), "{}", h);
    }
}

#[test]
fn hours_and_minutes_time_zones() {
    for h in -14i32..=16 {
        for m in [0u32, 5, 30, 45, 59, 60, 99] {
            let tz = format!("{}:{:02}", h, m);
            let expected = if !(-12..=14).contains(&h) {
                Err(binance_spot_rs::errors::InvalidParameter::Invalid {
                    parameter: "time_zone",
                    reason: "timezone hours must be in range [-12 to +14]",
                })
            } else if m >= 60 {
                Err(binance_spot_rs::errors::InvalidParameter::Invalid {
                    parameter: "time_zone",
                    reason: "timezone minutes must be 0-59",
                })
            } else {
                Ok(())
            };
            assert_eq!(check_time_zone(&tz), expected, "{}", tz);
        }
    }
}
