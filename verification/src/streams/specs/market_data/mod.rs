mod aggregate_trade_stream_spec;
mod all_mini_tickers_stream_spec;
mod all_rolling_window_tickers_stream_spec;
mod all_tickers_stream_spec;
mod average_price_stream_spec;
mod book_ticker_stream_spec;
mod diff_depth_stream_spec;
mod interval;
mod kline_stream_spec;
mod kline_with_timezone_stream_spec;
mod partial_book_depth_stream_spec;
mod rolling_window_ticker_stream_spec;
mod ticker_stream_spec;
mod timezone_offset;
mod trade_stream_spec;
mod update_speed;
mod window_size;

pub use aggregate_trade_stream_spec::AggregateTradeStreamSpec;
pub use all_mini_tickers_stream_spec::AllMiniTickersStreamSpec;
pub use all_rolling_window_tickers_stream_spec::AllRollingWindowTickersStreamSpec;
pub use all_tickers_stream_spec::AllTickersStreamSpec;
pub use average_price_stream_spec::AveragePriceStreamSpec;
pub use book_ticker_stream_spec::BookTickerStreamSpec;
pub use diff_depth_stream_spec::DiffDepthStreamSpec;
pub use interval::Interval;
pub use kline_stream_spec::KlineStreamSpec;
pub use kline_with_timezone_stream_spec::{
    KlineStreamData, KlineStreamEvent, KlineWithTimezoneStreamSpec,
};
pub use partial_book_depth_stream_spec::PartialBookDepthStreamSpec;
pub use rolling_window_ticker_stream_spec::RollingWindowTickerStreamSpec;
pub use ticker_stream_spec::TickerStreamSpec;
pub use timezone_offset::TimezoneOffset;
pub use trade_stream_spec::TradeStreamSpec;
pub use update_speed::UpdateSpeed;
pub use window_size::WindowSize;
