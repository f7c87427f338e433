use vstd::prelude::*;

use crate::decimal::Decimal;

verus! {

/// One kline (candlestick): its times, prices and volumes.
#[derive(Debug, Clone)]
pub struct Kline {
    /// The start of the kline, in milliseconds.
    pub open_time: u64,
    /// The end of the kline, in milliseconds.
    pub close_time: u64,
    pub open_price: Decimal,
    pub high_price: Decimal,
    pub low_price: Decimal,
    pub close_price: Decimal,
    /// The traded volume in the base asset.
    pub volume: Decimal,
    /// The number of trades.
    pub number_of_trades: u64,
    /// The traded volume in the quote asset.
    pub quote_asset_volume: Decimal,
    /// The volume bought by takers, in the base asset.
    pub taker_buy_base_asset_volume: Decimal,
    /// The volume bought by takers, in the quote asset.
    pub taker_buy_quote_asset_volume: Decimal,
}

} // verus!
