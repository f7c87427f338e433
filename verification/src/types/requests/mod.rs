pub mod common;
mod aggregate_trades_spec;
mod all_order_lists_spec;
mod all_orders_spec;
mod allocation_spec;
mod amend_order_spec;
mod average_price_spec;
mod cancel_all_orders_spec;
mod cancel_order_list_spec;
mod cancel_order_spec;
mod cancel_replace_spec;
mod commission_rates_spec;
mod exchange_info_spec;
mod historical_trades_spec;
mod klines_spec;
mod my_trades_spec;
mod oco_order_spec;
mod open_order_lists_spec;
mod open_orders_spec;
mod order_book_spec;
mod order_list_status_spec;
mod order_spec;
mod oto_order_spec;
mod otoco_order_spec;
mod prevented_matches_spec;
mod query_order_spec;
mod recent_trades_spec;
mod ticker_24hr_spec;
mod ticker_price_spec;
mod ticker_rolling_window_spec;
mod ticker_trading_day_spec;

pub use aggregate_trades_spec::AggregateTradesSpec;
pub use all_order_lists_spec::AllOrderListsSpec;
pub use all_orders_spec::AllOrdersSpec;
pub use allocation_spec::AllocationSpec;
pub use amend_order_spec::AmendOrderSpec;
pub use average_price_spec::AveragePriceSpec;
pub use cancel_all_orders_spec::CancelAllOrdersSpec;
pub use cancel_order_list_spec::CancelOrderListSpec;
pub use cancel_order_spec::CancelOrderSpec;
pub use cancel_replace_spec::CancelReplaceSpec;
pub use commission_rates_spec::CommissionRatesSpec;
pub use exchange_info_spec::ExchangeInfoSpec;
pub use historical_trades_spec::HistoricalTradesSpec;
pub use klines_spec::KlinesSpec;
pub use my_trades_spec::MyTradesSpec;
pub use oco_order_spec::OcoOrderSpec;
pub use open_order_lists_spec::OpenOrderListsSpec;
pub use open_orders_spec::OpenOrdersSpec;
pub use order_book_spec::OrderBookSpec;
pub use order_list_status_spec::OrderListStatusSpec;
pub use order_spec::OrderSpec;
pub use oto_order_spec::OtoOrderSpec;
pub use otoco_order_spec::OtocoOrderSpec;
pub use prevented_matches_spec::PreventedMatchesSpec;
pub use query_order_spec::QueryOrderSpec;
pub use recent_trades_spec::RecentTradesSpec;
pub use ticker_24hr_spec::Ticker24HrSpec;
pub use ticker_price_spec::TickerPriceSpec;
pub use ticker_rolling_window_spec::TickerRollingWindowSpec;
pub use ticker_trading_day_spec::TickerTradingDaySpec;
pub use common::{Unvalidated, Validated};
