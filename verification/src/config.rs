use vstd::prelude::*;

verus! {

/// The capacity of the event buffer of each kind of stream subscription.
#[derive(Debug, Clone, Copy, PartialEq, Eq)]
pub struct StreamConfig {
    pub aggregate_trade_buffer_size: usize,
    pub trade_buffer_size: usize,
    pub kline_buffer_size: usize,
    pub mini_ticker_buffer_size: usize,
    pub all_mini_tickers_buffer_size: usize,
    pub ticker_buffer_size: usize,
    pub all_tickers_buffer_size: usize,
    pub rolling_window_ticker_buffer_size: usize,
    pub all_rolling_window_tickers_buffer_size: usize,
    pub book_ticker_buffer_size: usize,
    pub average_price_buffer_size: usize,
    pub partial_book_depth_buffer_size: usize,
    pub diff_depth_buffer_size: usize,
    pub user_data_buffer_size: usize,
}

} // verus!
