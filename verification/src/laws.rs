//! What a request that passes its checks is known to hold, and how the
//! request checks agree with the stream parameters.
use vstd::prelude::*;

use crate::enums::{OrderType, TimeInForce};
use crate::streams::specs::market_data::{
    AggregateTradeStreamSpec, AllMiniTickersStreamSpec, AllRollingWindowTickersStreamSpec,
    AllTickersStreamSpec, AveragePriceStreamSpec, BookTickerStreamSpec, DiffDepthStreamSpec,
    Interval, KlineStreamSpec, KlineWithTimezoneStreamSpec, PartialBookDepthStreamSpec,
    RollingWindowTickerStreamSpec, TickerStreamSpec, TradeStreamSpec, WindowSize,
};
use crate::streams::specs::{StreamSpec, UserDataStreamSpec};
use crate::text::{
    all_digits, blank, decimal_text, digit_char, digit_value, digits_value, is_digit,
    is_white_space, lemma_decimal_text_reads_back, lemma_trimmed_unchanged, parsed_i32, parsed_u32,
};
use crate::types::requests::common::{
    count_char, is_kline_interval, is_maker_or_take_profit, is_stop_loss, lemma_count_absent,
    lemma_count_push, lemma_first_index_at, positive_if_set, time_zone_hours_error,
    time_zone_validation, window_size_sliceable, window_size_validation,
};
use crate::types::requests::{
    AllOrderListsSpec, AllOrdersSpec, AllocationSpec, AmendOrderSpec, CancelOrderListSpec,
    CancelReplaceSpec, KlinesSpec, MyTradesSpec, OcoOrderSpec, OrderListStatusSpec, OrderSpec, OtoOrderSpec,
    OtocoOrderSpec, PreventedMatchesSpec,
};

verus! {

/// A new order that passes its checks names a trading pair, gives at most
/// one of quantity and quote quantity, gives only amounts above zero and a
/// strategy type of at least 1000000, is an iceberg only when good till
/// cancelled or limit-maker, and has what its order type needs: time in
/// force, quantity and price for a limit order; a quantity or a quote
/// quantity for a market order; a quantity and a stop price or trailing
/// delta for stop-loss and take-profit orders, and also time in force and a
/// price for their limit variants; a quantity and a price for a limit-maker
/// order. An order of unknown type never passes.
pub proof fn lemma_valid_order_requirements<S>(o: OrderSpec<S>)
    requires
        o.validation() is Ok,
    ensures
        !blank(o.symbol@),
        !(o.quantity is Some && o.quote_order_quantity is Some),
        positive_if_set(o.quantity),
        positive_if_set(o.quote_order_quantity),
        positive_if_set(o.price),
        positive_if_set(o.stop_price),
        positive_if_set(o.trailing_delta),
        positive_if_set(o.iceberg_quantity),
        o.strategy_type matches Some(t) ==> t >= 1000000,
        o.iceberg_quantity is Some ==> o.time_in_force == Some(TimeInForce::GTC) || o.order_type
            == OrderType::LimitMaker,
        o.order_type != OrderType::Unknown,
        o.order_type == OrderType::Limit ==> o.time_in_force is Some && o.quantity is Some
            && o.price is Some,
        o.order_type == OrderType::Market ==> o.quantity is Some || o.quote_order_quantity is Some,
        o.order_type == OrderType::StopLoss || o.order_type == OrderType::TakeProfit ==> o.quantity is Some
            && (o.stop_price is Some || o.trailing_delta is Some),
        o.order_type == OrderType::StopLossLimit || o.order_type == OrderType::TakeProfitLimit
            ==> o.time_in_force is Some && o.quantity is Some && o.price is Some && (o.stop_price is Some
            || o.trailing_delta is Some),
        o.order_type == OrderType::LimitMaker ==> o.quantity is Some && o.price is Some,
{
}

/// A one-cancels-the-other list that passes its checks has a quantity above
/// zero, and of its two orders one is limit-maker, take-profit or
/// take-profit-limit and the other stop-loss or stop-loss-limit.
pub proof fn lemma_valid_oco_pairs_limit_with_stop<S>(o: OcoOrderSpec<S>)
    requires
        o.validation() is Ok,
    ensures
        !blank(o.symbol@),
        o.quantity.is_positive(),
        is_maker_or_take_profit(o.above_type) && is_stop_loss(o.below_type) || is_stop_loss(o.above_type)
            && is_maker_or_take_profit(o.below_type),
        o.above_strategy_type matches Some(t) ==> t >= 1000000,
        o.below_strategy_type matches Some(t) ==> t >= 1000000,
{
}

/// A one-triggers-the-other list that passes its checks has a limit or
/// limit-maker working order, positive working price and quantities, a
/// pending order of known type, and positive pending amounts.
pub proof fn lemma_valid_oto_requirements<S>(o: OtoOrderSpec<S>)
    requires
        o.validation() is Ok,
    ensures
        !blank(o.symbol@),
        o.working_type == OrderType::Limit || o.working_type == OrderType::LimitMaker,
        o.working_price.is_positive(),
        o.working_quantity.is_positive(),
        o.pending_quantity.is_positive(),
        o.pending_type != OrderType::Unknown,
        positive_if_set(o.working_iceberg_quantity),
        positive_if_set(o.pending_price),
        positive_if_set(o.pending_stop_price),
        positive_if_set(o.pending_trailing_delta),
        positive_if_set(o.pending_iceberg_quantity),
        o.working_strategy_type matches Some(t) ==> t >= 1000000,
        o.pending_strategy_type matches Some(t) ==> t >= 1000000,
{
}

/// A one-triggers-a-one-cancels-the-other list that passes its checks has a
/// limit (with time in force) or limit-maker working order, positive working
/// price and quantities, and pending orders that are neither limit, market
/// nor of unknown type.
pub proof fn lemma_valid_otoco_requirements<S>(o: OtocoOrderSpec<S>)
    requires
        o.validation() is Ok,
    ensures
        !blank(o.symbol@),
        o.working_type == OrderType::Limit || o.working_type == OrderType::LimitMaker,
        o.working_type == OrderType::Limit ==> o.working_time_in_force is Some,
        o.working_price.is_positive(),
        o.working_quantity.is_positive(),
        o.pending_quantity.is_positive(),
        is_maker_or_take_profit(o.pending_above_type) || is_stop_loss(o.pending_above_type),
        o.pending_below_type matches Some(t) ==> is_maker_or_take_profit(t) || is_stop_loss(t),
{
}

/// A cancel-replace request that passes its checks names the order to
/// cancel, has a strategy type of at least 1000000 where it has one, only
/// positive amounts, and, for a new market order, exactly one of quantity
/// and quote quantity.
pub proof fn lemma_valid_cancel_replace_requirements<S>(o: CancelReplaceSpec<S>)
    requires
        o.validation() is Ok,
    ensures
        !blank(o.symbol@),
        o.cancel_order_id is Some || o.cancel_origin_client_order_id is Some,
        o.strategy_type matches Some(t) ==> t >= 1000000,
        positive_if_set(o.quantity),
        positive_if_set(o.quote_order_quantity),
        positive_if_set(o.price),
        positive_if_set(o.stop_price),
        positive_if_set(o.trailing_delta),
        positive_if_set(o.iceberg_quantity),
        o.order_type == OrderType::Market ==> (o.quantity is Some) != (o.quote_order_quantity is Some),
{
}

/// A time range `start..end` that the account history queries accept: the
/// end lies after the start and at most 24 hours (in milliseconds) later.
pub open spec fn within_a_day(start: Option<u64>, end: Option<u64>) -> bool {
    match (start, end) {
        (Some(s), Some(e)) => s < e && e - s <= 86400000,
        _ => true,
    }
}

/// Every account history query that passes its checks spans at most a day:
/// all orders, allocations, order lists and own trades. Order lists and own
/// trades read from a starting ID take no time range.
pub proof fn lemma_valid_history_within_a_day<S>(
    orders: AllOrdersSpec<S>,
    allocations: AllocationSpec<S>,
    lists: AllOrderListsSpec<S>,
    trades: MyTradesSpec<S>,
)
    ensures
        orders.validation() is Ok ==> within_a_day(orders.start_time, orders.end_time),
        allocations.validation() is Ok ==> within_a_day(allocations.start_time, allocations.end_time),
        lists.validation() is Ok ==> within_a_day(lists.start_time, lists.end_time),
        lists.validation() is Ok && lists.from_id is Some ==> lists.start_time is None
            && lists.end_time is None,
        trades.validation() is Ok ==> within_a_day(trades.start_time, trades.end_time),
        trades.validation() is Ok && (trades.from_id is Some || trades.order_id is Some)
            ==> trades.start_time is None && trades.end_time is None,
{
}

/// Requests that name one object by either of two identifiers pass their
/// checks only with exactly one of them: the order to amend, the order list
/// to cancel or look up, and the prevented matches to list.
pub proof fn lemma_valid_requests_name_exactly_one<S>(
    amend: AmendOrderSpec<S>,
    cancel_list: CancelOrderListSpec<S>,
    list_status: OrderListStatusSpec<S>,
    prevented: PreventedMatchesSpec<S>,
)
    ensures
        amend.validation() is Ok ==> (amend.order_id is Some) != (amend.original_client_order_id is Some)
            && amend.new_quantity.is_positive(),
        cancel_list.validation() is Ok ==> (cancel_list.order_list_id is Some) != (
        cancel_list.list_client_order_id is Some),
        list_status.validation() is Ok ==> (list_status.order_list_id is Some) != (
        list_status.original_client_order_id is Some),
        prevented.validation() is Ok ==> (prevented.prevented_match_id is Some) != (
        prevented.order_id is Some),
{
}

/// The intervals that a klines query accepts are exactly those of the kline
/// streams.
pub proof fn lemma_kline_intervals_are_stream_intervals(s: Seq<char>)
    ensures
        is_kline_interval(s) <==> exists|i: Interval| #[trigger] i.text() == s,
{
    assert forall|i: Interval| #[trigger] i.text() == s implies is_kline_interval(s) by {
        match i {
            Interval::OneSecond => {},
            Interval::OneMinute => {},
            Interval::ThreeMinutes => {},
            Interval::FiveMinutes => {},
            Interval::FifteenMinutes => {},
            Interval::ThirtyMinutes => {},
            Interval::OneHour => {},
            Interval::TwoHours => {},
            Interval::FourHours => {},
            Interval::SixHours => {},
            Interval::EightHours => {},
            Interval::TwelveHours => {},
            Interval::OneDay => {},
            Interval::ThreeDays => {},
            Interval::OneWeek => {},
            Interval::OneMonth => {},
        }
    }
    if is_kline_interval(s) {
        let i = if s == "1s"@ {
            Interval::OneSecond
        } else if s == "1m"@ {
            Interval::OneMinute
        } else if s == "3m"@ {
            Interval::ThreeMinutes
        } else if s == "5m"@ {
            Interval::FiveMinutes
        } else if s == "15m"@ {
            Interval::FifteenMinutes
        } else if s == "30m"@ {
            Interval::ThirtyMinutes
        } else if s == "1h"@ {
            Interval::OneHour
        } else if s == "2h"@ {
            Interval::TwoHours
        } else if s == "4h"@ {
            Interval::FourHours
        } else if s == "6h"@ {
            Interval::SixHours
        } else if s == "8h"@ {
            Interval::EightHours
        } else if s == "12h"@ {
            Interval::TwelveHours
        } else if s == "1d"@ {
            Interval::OneDay
        } else if s == "3d"@ {
            Interval::ThreeDays
        } else if s == "1w"@ {
            Interval::OneWeek
        } else {
            Interval::OneMonth
        };
        assert(i.text() == s);
    }
}

/// Every window size of the rolling-window ticker streams passes the
/// window-size check of the rolling-window ticker query.
pub proof fn lemma_stream_window_sizes_pass(w: WindowSize)
    ensures
        window_size_sliceable(w.text()),
        window_size_validation(w.text()) is Ok,
{
    reveal_strlit("1h");
    reveal_strlit("4h");
    reveal_strlit("1d");
    let digits = w.text().drop_last();
    assert(digits.len() == 1);
    lemma_decimal_text_reads_back(digits_number(w));
    assert(digits =~= decimal_text(digits_number(w)));
}

/// The number of hours or days that a stream window size spans.
spec fn digits_number(w: WindowSize) -> nat {
    match w {
        WindowSize::OneHour => 1,
        WindowSize::FourHours => 4,
        WindowSize::OneDay => 1,
    }
}

/// The decimal numeral of a whole-hour offset, with a `-` before a negative one.
pub open spec fn hour_offset_text(h: int) -> Seq<char> {
    if h < 0 {
        seq!['-'] + decimal_text((-h) as nat)
    } else {
        decimal_text(h as nat)
    }
}

/// A whole-hour time zone is accepted exactly when it lies in -12..=14;
/// any other whole number of hours (that fits an `i32`) is refused as out
/// of range.
pub proof fn lemma_whole_hour_time_zones(h: int)
    requires
        i32::MIN <= h <= i32::MAX,
    ensures
        time_zone_validation(hour_offset_text(h)) == if -12 <= h <= 14 {
            Ok::<(), crate::errors::InvalidParameter>(())
        } else {
            Err(time_zone_hours_error())
        },
{
    let t = hour_offset_text(h);
    let m: nat = if h < 0 {
        (-h) as nat
    } else {
        h as nat
    };
    lemma_decimal_text_reads_back(m);
    let d = decimal_text(m);
    assert(is_digit(d[0]));
    assert(is_digit(d[d.len() - 1]));
    if h < 0 {
        assert(t.skip(1) =~= d);
        assert(t[0] == '-');
        assert(t.last() == d[d.len() - 1]);
    } else {
        assert(t == d);
    }
    lemma_trimmed_unchanged(t);
}

/// Two decimal digits: the tens and the units of `m`.
pub open spec fn two_digits(m: nat) -> Seq<char> {
    seq![digit_char(m / 10), digit_char(m % 10)]
}

/// A time zone written as whole hours, a colon and two minute digits (such
/// as `-1:00` or `05:45`) is accepted exactly when the hours lie in -12..=14
/// and the minutes below 60; out-of-range hours are reported first.
pub proof fn lemma_hours_and_minutes_time_zones(h: int, m: nat)
    requires
        i32::MIN <= h <= i32::MAX,
        m < 100,
    ensures
        time_zone_validation(hour_offset_text(h) + seq![':'] + two_digits(m)) == if !(-12 <= h <= 14) {
            Err(time_zone_hours_error())
        } else if m >= 60 {
            Err(
                crate::errors::InvalidParameter::Invalid {
                    parameter: "time_zone",
                    reason: "timezone minutes must be 0-59",
                },
            )
        } else {
            Ok(())
        },
{
    let hours = hour_offset_text(h);
    let minutes = two_digits(m);
    let t = hours + seq![':'] + minutes;
    let a: nat = if h < 0 {
        (-h) as nat
    } else {
        h as nat
    };
    lemma_decimal_text_reads_back(a);
    let d = decimal_text(a);
    assert(is_digit(d[0]));
    assert(is_digit(d[d.len() - 1]));
    // The hours part holds digits, after a `-` for a negative offset.
    assert forall|i: int| 0 <= i < hours.len() implies hours[i] != ':' by {
        if h < 0 {
            if i > 0 {
                assert(hours[i] == d[i - 1]);
                assert(is_digit(d[i - 1]));
            }
        } else {
            assert(is_digit(d[i]));
        }
    }
    if h < 0 {
        assert(hours.skip(1) =~= d);
    }
    assert(parsed_i32(hours) == Some(h));
    // The whole text: trimmed to itself, and not a number.
    let k = hours.len() as int;
    assert(t[k] == ':');
    assert(t[0] == hours[0]);
    assert(t.last() == digit_char(m % 10));
    lemma_trimmed_unchanged(t);
    assert(!all_digits(t));
    assert(!all_digits(t.skip(1))) by {
        if k >= 1 {
            assert(t.skip(1)[k - 1] == ':');
        }
    }
    assert(parsed_i32(t) is None);
    // Exactly one colon, at position `k`.
    lemma_count_absent(hours, ':');
    lemma_count_push(hours, ':', ':');
    lemma_count_push(hours.push(':'), digit_char(m / 10), ':');
    lemma_count_push(hours.push(':').push(digit_char(m / 10)), digit_char(m % 10), ':');
    assert(t =~= hours.push(':').push(digit_char(m / 10)).push(digit_char(m % 10)));
    assert(count_char(t, ':') == 1);
    assert(t.contains(':'));
    assert forall|j: int| 0 <= j < k implies t[j] != ':' by {
        assert(t[j] == hours[j]);
    }
    lemma_first_index_at(t, ':', k);
    assert(t.subrange(0, k) =~= hours);
    assert(t.subrange(k + 1, t.len() as int) =~= minutes);
    // The minutes read back as `m`.
    assert(minutes.drop_last() =~= seq![digit_char(m / 10)]);
    let tens = seq![digit_char(m / 10)];
    assert(tens.drop_last() =~= Seq::<char>::empty());
    assert(digits_value(Seq::<char>::empty()) == 0);
    assert(tens.last() == digit_char(m / 10));
    assert(digit_value(digit_char(m / 10)) == m / 10);
    assert(digit_value(digit_char(m % 10)) == m % 10);
    assert(digits_value(tens) == m / 10);
    assert(minutes.last() == digit_char(m % 10));
    assert(m == (m / 10) * 10 + m % 10);
    assert(digits_value(minutes) == m);
    assert(parsed_u32(minutes) == Some(m as int));
}

/// Of the stream subscriptions only the user data stream needs an
/// authenticated connection; every market data stream is public.
pub proof fn lemma_only_user_data_needs_authentication(
    user_data: UserDataStreamSpec,
    aggregate_trade: AggregateTradeStreamSpec,
    trade: TradeStreamSpec,
    kline: KlineStreamSpec,
    kline_with_timezone: KlineWithTimezoneStreamSpec,
    all_mini_tickers: AllMiniTickersStreamSpec,
    ticker: TickerStreamSpec,
    all_tickers: AllTickersStreamSpec,
    rolling_window_ticker: RollingWindowTickerStreamSpec,
    all_rolling_window_tickers: AllRollingWindowTickersStreamSpec,
    book_ticker: BookTickerStreamSpec,
    average_price: AveragePriceStreamSpec,
    partial_book_depth: PartialBookDepthStreamSpec,
    diff_depth: DiffDepthStreamSpec,
)
    ensures
        user_data.authentication_spec(),
        !aggregate_trade.authentication_spec(),
        !trade.authentication_spec(),
        !kline.authentication_spec(),
        !kline_with_timezone.authentication_spec(),
        !all_mini_tickers.authentication_spec(),
        !ticker.authentication_spec(),
        !all_tickers.authentication_spec(),
        !rolling_window_ticker.authentication_spec(),
        !all_rolling_window_tickers.authentication_spec(),
        !book_ticker.authentication_spec(),
        !average_price.authentication_spec(),
        !partial_book_depth.authentication_spec(),
        !diff_depth.authentication_spec(),
{
}

/// A new order is accepted exactly when it names a trading pair, gives at
/// most one of quantity and quote quantity, gives only amounts above zero, a
/// strategy type of at least 1000000, is an iceberg only when good till
/// cancelled or limit-maker, and has the parameters its type needs: a limit
/// order time in force, quantity and price; a market order a quantity or a
/// quote quantity; a stop-loss or take-profit order a quantity and a trigger
/// (a stop price or a trailing delta, either one); their limit variants
/// also time in force and a price; a limit-maker order quantity and price.
pub proof fn lemma_order_accepted_exactly<S>(o: OrderSpec<S>)
    ensures
        o.validation() is Ok <==> {
            &&& !blank(o.symbol@)
            &&& !(o.quantity is Some && o.quote_order_quantity is Some)
            &&& positive_if_set(o.quantity)
            &&& positive_if_set(o.quote_order_quantity)
            &&& positive_if_set(o.price)
            &&& positive_if_set(o.stop_price)
            &&& positive_if_set(o.trailing_delta)
            &&& positive_if_set(o.iceberg_quantity)
            &&& (o.strategy_type matches Some(t) ==> t >= 1000000)
            &&& (o.iceberg_quantity is Some ==> o.time_in_force == Some(TimeInForce::GTC)
                || o.order_type == OrderType::LimitMaker)
            &&& o.order_type != OrderType::Unknown
            &&& (o.order_type == OrderType::Limit ==> o.time_in_force is Some && o.quantity is Some
                && o.price is Some)
            &&& (o.order_type == OrderType::Market ==> o.quantity is Some
                || o.quote_order_quantity is Some)
            &&& (o.order_type == OrderType::StopLoss || o.order_type == OrderType::TakeProfit
                ==> o.quantity is Some && (o.stop_price is Some || o.trailing_delta is Some))
            &&& (o.order_type == OrderType::StopLossLimit || o.order_type
                == OrderType::TakeProfitLimit ==> o.time_in_force is Some && o.quantity is Some
                && o.price is Some && (o.stop_price is Some || o.trailing_delta is Some))
            &&& (o.order_type == OrderType::LimitMaker ==> o.quantity is Some && o.price is Some)
        },
{
}

/// A one-cancels-the-other list is accepted exactly when it names a trading
/// pair, has a quantity above zero, pairs a limit-maker or take-profit order
/// with a stop-loss order, has strategy types of at least 1000000, and each
/// order has what its type needs: stop-loss-limit a time in force and a
/// price; take-profit-limit those and a trigger; limit-maker a price (and,
/// below, no time in force); take-profit above a price and a trigger;
/// stop-loss, and take-profit below, a trigger.
pub proof fn lemma_oco_accepted_exactly<S>(o: OcoOrderSpec<S>)
    ensures
        o.validation() is Ok <==> {
            &&& !blank(o.symbol@)
            &&& o.quantity.is_positive()
            &&& (is_maker_or_take_profit(o.above_type) && is_stop_loss(o.below_type) || is_stop_loss(
                o.above_type,
            ) && is_maker_or_take_profit(o.below_type))
            &&& (o.above_strategy_type matches Some(t) ==> t >= 1000000)
            &&& (o.below_strategy_type matches Some(t) ==> t >= 1000000)
            &&& (o.above_type == OrderType::StopLossLimit ==> o.above_time_in_force is Some
                && o.above_price is Some)
            &&& (o.above_type == OrderType::TakeProfitLimit ==> o.above_time_in_force is Some
                && o.above_price is Some && (o.above_stop_price is Some
                || o.above_trailing_delta is Some))
            &&& (o.above_type == OrderType::LimitMaker ==> o.above_price is Some)
            &&& (o.above_type == OrderType::TakeProfit ==> o.above_price is Some && (
            o.above_stop_price is Some || o.above_trailing_delta is Some))
            &&& (o.above_type == OrderType::StopLoss ==> o.above_stop_price is Some
                || o.above_trailing_delta is Some)
            &&& (o.below_type == OrderType::StopLossLimit ==> o.below_time_in_force is Some
                && o.below_price is Some)
            &&& (o.below_type == OrderType::TakeProfitLimit ==> o.below_time_in_force is Some
                && o.below_price is Some && (o.below_stop_price is Some
                || o.below_trailing_delta is Some))
            &&& (o.below_type == OrderType::LimitMaker ==> o.below_time_in_force is None
                && o.below_price is Some)
            &&& (o.below_type == OrderType::StopLoss || o.below_type == OrderType::TakeProfit
                ==> o.below_stop_price is Some || o.below_trailing_delta is Some)
        },
{
}

/// A cancel-replace request is accepted exactly when it names a trading pair
/// and the order to cancel, has a strategy type of at least 1000000, only
/// amounts above zero, and a new order with what its type needs: a limit
/// order time in force, price and quantity; a limit-maker order price and
/// quantity; a market order exactly one of quantity and quote quantity; a
/// stop-loss or take-profit order a quantity and a trigger, their limit
/// variants also time in force and a price.
pub proof fn lemma_cancel_replace_accepted_exactly<S>(o: CancelReplaceSpec<S>)
    ensures
        o.validation() is Ok <==> {
            &&& !blank(o.symbol@)
            &&& (o.cancel_order_id is Some || o.cancel_origin_client_order_id is Some)
            &&& (o.strategy_type matches Some(t) ==> t >= 1000000)
            &&& positive_if_set(o.quantity)
            &&& positive_if_set(o.quote_order_quantity)
            &&& positive_if_set(o.price)
            &&& positive_if_set(o.stop_price)
            &&& positive_if_set(o.trailing_delta)
            &&& positive_if_set(o.iceberg_quantity)
            &&& (o.order_type == OrderType::Limit ==> o.time_in_force is Some && o.price is Some
                && o.quantity is Some)
            &&& (o.order_type == OrderType::LimitMaker ==> o.price is Some && o.quantity is Some)
            &&& (o.order_type == OrderType::Market ==> (o.quantity is Some) != (
            o.quote_order_quantity is Some))
            &&& (o.order_type == OrderType::StopLoss || o.order_type == OrderType::TakeProfit
                ==> o.quantity is Some && (o.stop_price is Some || o.trailing_delta is Some))
            &&& (o.order_type == OrderType::StopLossLimit || o.order_type
                == OrderType::TakeProfitLimit ==> o.time_in_force is Some && o.price is Some
                && o.quantity is Some && (o.stop_price is Some || o.trailing_delta is Some))
        },
{
}

/// A klines query is accepted exactly when it names a trading pair and the
/// interval of one of the kline streams, asks for at most 1000 klines, has a
/// time range that ends after it starts, and a time zone that the time zone
/// check accepts.
pub proof fn lemma_klines_accepted_exactly<S>(k: KlinesSpec<S>)
    ensures
        k.validation() is Ok <==> {
            &&& !blank(k.symbol@)
            &&& (exists|i: Interval| #[trigger] i.text() == k.interval@)
            &&& (k.limit matches Some(l) ==> l <= 1000)
            &&& match (k.start_time, k.end_time) {
                (Some(s), Some(e)) => s < e,
                _ => true,
            }
            &&& (k.time_zone matches Some(tz) ==> time_zone_validation(tz@) is Ok)
        },
{
    lemma_kline_intervals_are_stream_intervals(k.interval@);
    if is_kline_interval(k.interval@) {
        reveal_strlit("1s");
        reveal_strlit("1m");
        reveal_strlit("3m");
        reveal_strlit("5m");
        reveal_strlit("15m");
        reveal_strlit("30m");
        reveal_strlit("1h");
        reveal_strlit("2h");
        reveal_strlit("4h");
        reveal_strlit("6h");
        reveal_strlit("8h");
        reveal_strlit("12h");
        reveal_strlit("1d");
        reveal_strlit("3d");
        reveal_strlit("1w");
        reveal_strlit("1M");
        assert(!blank(k.interval@)) by {
            assert(!is_white_space(k.interval@[0]));
        }
    }
}

/// Each stream interval is written as its count and unit: seconds `s`,
/// minutes `m`, hours `h`, days `d`, a week `w` and a month `M`.
pub proof fn lemma_interval_texts()
    ensures
        Interval::OneSecond.text() == "1s"@,
        Interval::OneMinute.text() == "1m"@,
        Interval::ThreeMinutes.text() == "3m"@,
        Interval::FiveMinutes.text() == "5m"@,
        Interval::FifteenMinutes.text() == "15m"@,
        Interval::ThirtyMinutes.text() == "30m"@,
        Interval::OneHour.text() == "1h"@,
        Interval::TwoHours.text() == "2h"@,
        Interval::FourHours.text() == "4h"@,
        Interval::SixHours.text() == "6h"@,
        Interval::EightHours.text() == "8h"@,
        Interval::TwelveHours.text() == "12h"@,
        Interval::OneDay.text() == "1d"@,
        Interval::ThreeDays.text() == "3d"@,
        Interval::OneWeek.text() == "1w"@,
        Interval::OneMonth.text() == "1M"@,
{
}

} // verus!
