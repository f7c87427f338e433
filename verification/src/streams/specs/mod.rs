pub mod market_data;
pub mod stream_spec;
pub mod user_data;

pub use market_data::{
    AggregateTradeStreamSpec, AllMiniTickersStreamSpec, AllRollingWindowTickersStreamSpec,
    AllTickersStreamSpec, AveragePriceStreamSpec, BookTickerStreamSpec, DiffDepthStreamSpec,
    Interval, KlineStreamSpec, KlineWithTimezoneStreamSpec, PartialBookDepthStreamSpec,
    RollingWindowTickerStreamSpec, TickerStreamSpec, TimezoneOffset, TradeStreamSpec, UpdateSpeed,
    WindowSize,
};
pub use stream_spec::StreamSpec;
pub use user_data::UserDataStreamSpec;
