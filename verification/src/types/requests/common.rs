use vstd::prelude::*;

use crate::decimal::Decimal;
use crate::enums::OrderType;
use crate::errors::InvalidParameter;
use crate::json::{json_parsed_string_array, parse_json_string_array};
use crate::text::{
    blank, is_blank, parse_i32, parse_u32, parsed_i32, parsed_u32, text_equals, trim, trimmed,
};

verus! {

/// The state of a request specification that has not been checked yet.
#[derive(Debug, Clone, Copy)]
pub struct Unvalidated;

/// The state of a request specification that `build` has checked.
#[derive(Debug, Clone, Copy)]
pub struct Validated;

/// How a ticker endpoint checks its `symbols` parameter, a JSON array of
/// symbols: it may not be blank, must be a JSON array of strings, not
/// empty, with no blank element, and, where `capped`, of at most 100 symbols.
pub open spec fn symbols_validation(json: Seq<char>, capped: bool) -> Result<(), InvalidParameter> {
    if blank(json) {
        Err(InvalidParameter::Empty { parameter: "symbols" })
    } else {
        symbol_list_validation(json_parsed_string_array(json), capped)
    }
}

/// How the list that the `symbols` JSON text holds is checked; `None`
/// stands for a text that is not a JSON array of strings.
pub open spec fn symbol_list_validation(parsed: Option<Seq<Seq<char>>>, capped: bool) -> Result<
    (),
    InvalidParameter,
> {
    match parsed {
        None => Err(
            InvalidParameter::Invalid {
                parameter: "symbols",
                reason: "must be valid JSON array",
            },
        ),
        Some(items) => if items.len() == 0 {
            Err(InvalidParameter::Empty { parameter: "symbols" })
        } else if capped && items.len() > 100 {
            Err(
                InvalidParameter::Invalid {
                    parameter: "symbols",
                    reason: "maximum 100 symbols allowed",
                },
            )
        } else if exists|i: int| 0 <= i < items.len() && blank(#[trigger] items[i]) {
            Err(InvalidParameter::Empty { parameter: "symbols element" })
        } else {
            Ok(())
        },
    }
}

/// Checks the list read from a `symbols` JSON text (`None` where the text
/// could not be read as a JSON array of strings).
pub fn check_symbol_list(parsed: Option<&Vec<String>>, capped: bool) -> (r: Result<(), InvalidParameter>)
    ensures
        r == symbol_list_validation(
            match parsed {
                Some(items) => Some(items.deep_view()),
                None => None,
            },
            capped,
        ),
{
    match parsed {
        None => Err(
            InvalidParameter::Invalid {
                parameter: "symbols",
                reason: "must be valid JSON array",
            },
        ),
        Some(items) => {
            let ghost view = items.deep_view();
            if items.len() == 0 {
                return Err(InvalidParameter::Empty { parameter: "symbols" });
            }
            if capped && items.len() > 100 {
                return Err(
                    InvalidParameter::Invalid {
                        parameter: "symbols",
                        reason: "maximum 100 symbols allowed",
                    },
                );
            }
            let mut i: usize = 0;
            while i < items.len()
                invariant
                    i <= items.len(),
                    view == items.deep_view(),
                    view.len() == items@.len(),
                    items.len() > 0,
                    !(capped && items.len() > 100),
                    parsed == Some(items),
                    forall|j: int| 0 <= j < i ==> !blank(#[trigger] view[j]),
                decreases items.len() - i,
            {
                if is_blank(items[i].as_str()) {
                    proof {
                        assert(view.len() == items@.len());
                        assert(view[i as int] == items@[i as int]@);
                        assert(blank(view[i as int]));
                    }
                    return Err(InvalidParameter::Empty { parameter: "symbols element" });
                }
                i = i + 1;
            }
            Ok(())
        },
    }
}

/// Checks the `symbols` parameter, a JSON array of symbols.
pub fn check_symbols(json: &str, capped: bool) -> (r: Result<(), InvalidParameter>)
    ensures
        r == symbols_validation(json@, capped),
{
    if is_blank(json) {
        return Err(InvalidParameter::Empty { parameter: "symbols" });
    }
    match parse_json_string_array(json) {
        Ok(items) => check_symbol_list(Some(&items), capped),
        Err(_) => check_symbol_list(None, capped),
    }
}

/// The number of occurrences of `c` in `s`.
pub open spec fn count_char(s: Seq<char>, c: char) -> nat
    decreases s.len(),
{
    if s.len() == 0 {
        0
    } else {
        count_char(s.drop_last(), c) + if s.last() == c {
            1nat
        } else {
            0nat
        }
    }
}

/// The position of the first `c` in `s`, or the length of `s` where there is none.
pub open spec fn first_index(s: Seq<char>, c: char) -> int
    decreases s.len(),
{
    if s.len() == 0 {
        0
    } else if s[0] == c {
        0
    } else {
        1 + first_index(s.drop_first(), c)
    }
}

/// The error for a time zone that is neither an hour offset nor `hours:minutes`.
pub open spec fn time_zone_format_error() -> InvalidParameter {
    InvalidParameter::Invalid {
        parameter: "time_zone",
        reason: "timezone format must be like '0', '8', '-1:00', or '05:45'",
    }
}

/// The error for a time zone whose hours lie outside -12..=14.
pub open spec fn time_zone_hours_error() -> InvalidParameter {
    InvalidParameter::Invalid { parameter: "time_zone", reason: "timezone hours must be in range [-12 to +14]" }
}

/// How a kline or trading-day request checks its `timeZone`: after trimming
/// white space it must be a whole number of hours in -12..=14, or `hours:minutes`
/// with hours in -12..=14 and minutes below 60.
pub open spec fn time_zone_validation(tz: Seq<char>) -> Result<(), InvalidParameter> {
    let t = trimmed(tz);
    match parsed_i32(t) {
        Some(h) => if -12 <= h <= 14 {
            Ok(())
        } else {
            Err(time_zone_hours_error())
        },
        None => if !t.contains(':') || count_char(t, ':') != 1 {
            Err(time_zone_format_error())
        } else {
            let k = first_index(t, ':');
            match parsed_i32(t.subrange(0, k)) {
                None => Err(
                    InvalidParameter::Invalid {
                        parameter: "time_zone",
                        reason: "invalid hour format",
                    },
                ),
                Some(h) => match parsed_u32(t.subrange(k + 1, t.len() as int)) {
                    None => Err(
                        InvalidParameter::Invalid {
                            parameter: "time_zone",
                            reason: "invalid minute format",
                        },
                    ),
                    Some(m) => if !(-12 <= h <= 14) {
                        Err(time_zone_hours_error())
                    } else if m >= 60 {
                        Err(
                            InvalidParameter::Invalid {
                                parameter: "time_zone",
                                reason: "timezone minutes must be 0-59",
                            },
                        )
                    } else {
                        Ok(())
                    },
                },
            }
        },
    }
}

/// Appending a character adds one occurrence exactly when it is `c`.
pub proof fn lemma_count_push(s: Seq<char>, x: char, c: char)
    ensures
        count_char(s.push(x), c) == count_char(s, c) + if x == c {
            1nat
        } else {
            0nat
        },
{
    assert(s.push(x).drop_last() =~= s);
}

/// `first_index` of a text whose first `c` sits at `k`.
pub proof fn lemma_first_index_at(s: Seq<char>, c: char, k: int)
    requires
        0 <= k < s.len(),
        s[k] == c,
        forall|j: int| 0 <= j < k ==> s[j] != c,
    ensures
        first_index(s, c) == k,
    decreases k,
{
    if k > 0 {
        assert(s[0] != c);
        lemma_first_index_at(s.drop_first(), c, k - 1);
    }
}

/// Checks a `timeZone` parameter.
pub fn check_time_zone(tz: &str) -> (r: Result<(), InvalidParameter>)
    ensures
        r == time_zone_validation(tz@),
{
    let t = trim(tz);
    if let Some(hours) = parse_i32(t) {
        if hours < -12 || hours > 14 {
            return Err(
                InvalidParameter::Invalid {
                    parameter: "time_zone",
                    reason: "timezone hours must be in range [-12 to +14]",
                },
            );
        }
        return Ok(());
    }
    let n = t.unicode_len();
    let mut colon: usize = n;
    let mut colons: usize = 0;
    let mut i: usize = 0;
    while i < n
        invariant
            i <= n,
            n == t@.len(),
            colons as nat == count_char(t@.subrange(0, i as int), ':'),
            colons <= i,
            colon <= n,
            colon == n ==> !t@.subrange(0, i as int).contains(':'),
            colon < n ==> colon < i && t@[colon as int] == ':' && forall|j: int|
                0 <= j < colon ==> t@[j] != ':',
        decreases n - i,
    {
        let c = t.get_char(i);
        proof {
            assert(t@.subrange(0, i + 1) =~= t@.subrange(0, i as int).push(c));
            lemma_count_push(t@.subrange(0, i as int), c, ':');
        }
        if c == ':' {
            if colon == n {
                proof {
                    assert forall|j: int| 0 <= j < i implies t@[j] != ':' by {
                        if t@[j] == ':' {
                            assert(t@.subrange(0, i as int)[j] == ':');
                        }
                    }
                }
                colon = i;
            }
            colons = colons + 1;
        } else {
            proof {
                if colon == n {
                    let next = t@.subrange(0, i + 1);
                    assert(!next.contains(':')) by {
                        if next.contains(':') {
                            let j = choose|j: int| 0 <= j < next.len() && #[trigger] next[j] == ':';
                            if j < i {
                                assert(t@.subrange(0, i as int)[j] == ':');
                            }
                        }
                    }
                }
            }
        }
        i = i + 1;
    }
    proof {
        assert(t@.subrange(0, n as int) =~= t@);
    }
    if colon == n || colons != 1 {
        return Err(
            InvalidParameter::Invalid {
                parameter: "time_zone",
                reason: "timezone format must be like '0', '8', '-1:00', or '05:45'",
            },
        );
    }
    proof {
        lemma_first_index_at(t@, ':', colon as int);
        assert(t@.contains(':')) by {
            assert(t@[colon as int] == ':');
        }
    }
    let hours_text = t.substring_char(0, colon);
    let minutes_text = t.substring_char(colon + 1, n);
    let hours = match parse_i32(hours_text) {
        Some(h) => h,
        None => {
            return Err(
                InvalidParameter::Invalid {
                    parameter: "time_zone",
                    reason: "invalid hour format",
                },
            );
        },
    };
    let minutes = match parse_u32(minutes_text) {
        Some(m) => m,
        None => {
            return Err(
                InvalidParameter::Invalid {
                    parameter: "time_zone",
                    reason: "invalid minute format",
                },
            );
        },
    };
    if hours < -12 || hours > 14 {
        return Err(
            InvalidParameter::Invalid {
                parameter: "time_zone",
                reason: "timezone hours must be in range [-12 to +14]",
            },
        );
    }
    if minutes >= 60 {
        return Err(
            InvalidParameter::Invalid {
                parameter: "time_zone",
                reason: "timezone minutes must be 0-59",
            },
        );
    }
    Ok(())
}

/// The text before the last character can be cut off at a byte boundary:
/// the last character, if any, is a single UTF-8 byte (ASCII).
pub open spec fn window_size_sliceable(w: Seq<char>) -> bool {
    w.len() == 0 || (w.last() as u32) < 0x80
}

/// How a rolling-window ticker request checks its `windowSize`: a number
/// followed by `m` (1..=59 minutes), `h` (1..=23 hours) or `d` (1..=7 days).
pub open spec fn window_size_validation(w: Seq<char>) -> Result<(), InvalidParameter> {
    if w.len() == 0 {
        Err(InvalidParameter::Empty { parameter: "window_size" })
    } else {
        match parsed_u32(w.drop_last()) {
            None => Err(
                InvalidParameter::Invalid {
                    parameter: "window_size",
                    reason: "must be a number followed by m, h, or d",
                },
            ),
            Some(num) => if w.last() == 'm' {
                if num < 1 || num > 59 {
                    Err(
                        InvalidParameter::Invalid {
                            parameter: "window_size",
                            reason: "minutes must be 1-59",
                        },
                    )
                } else {
                    Ok(())
                }
            } else if w.last() == 'h' {
                if num < 1 || num > 23 {
                    Err(
                        InvalidParameter::Invalid {
                            parameter: "window_size",
                            reason: "hours must be 1-23",
                        },
                    )
                } else {
                    Ok(())
                }
            } else if w.last() == 'd' {
                if num < 1 || num > 7 {
                    Err(
                        InvalidParameter::Invalid {
                            parameter: "window_size",
                            reason: "days must be 1-7",
                        },
                    )
                } else {
                    Ok(())
                }
            } else {
                Err(
                    InvalidParameter::Invalid {
                        parameter: "window_size",
                        reason: "must end with 'm' (minutes), 'h' (hours), or 'd' (days)",
                    },
                )
            },
        }
    }
}

/// Checks a `windowSize` parameter. The number is what precedes the last
/// character, which must therefore be a single byte.
pub fn check_window_size(w: &str) -> (r: Result<(), InvalidParameter>)
    requires
        window_size_sliceable(w@),
    ensures
        r == window_size_validation(w@),
{
    let n = w.unicode_len();
    if n == 0 {
        return Err(InvalidParameter::Empty { parameter: "window_size" });
    }
    let last = w.get_char(n - 1);
    let number = w.substring_char(0, n - 1);
    proof {
        assert(number@ =~= w@.drop_last());
    }
    match parse_u32(number) {
        Some(num) => {
            if last == 'm' {
                if num < 1 || num > 59 {
                    return Err(
                        InvalidParameter::Invalid {
                            parameter: "window_size",
                            reason: "minutes must be 1-59",
                        },
                    );
                }
            } else if last == 'h' {
                if num < 1 || num > 23 {
                    return Err(
                        InvalidParameter::Invalid {
                            parameter: "window_size",
                            reason: "hours must be 1-23",
                        },
                    );
                }
            } else if last == 'd' {
                if num < 1 || num > 7 {
                    return Err(
                        InvalidParameter::Invalid {
                            parameter: "window_size",
                            reason: "days must be 1-7",
                        },
                    );
                }
            } else {
                return Err(
                    InvalidParameter::Invalid {
                        parameter: "window_size",
                        reason: "must end with 'm' (minutes), 'h' (hours), or 'd' (days)",
                    },
                );
            }
            Ok(())
        },
        None => Err(
            InvalidParameter::Invalid {
                parameter: "window_size",
                reason: "must be a number followed by m, h, or d",
            },
        ),
    }
}

/// An optional amount is either absent or strictly greater than zero.
pub open spec fn positive_if_set(amount: Option<Decimal>) -> bool {
    amount matches Some(d) ==> d.is_positive()
}

/// Whether an optional amount is absent or strictly greater than zero.
pub fn is_positive_if_set(amount: Option<Decimal>) -> (r: bool)
    ensures
        r == positive_if_set(amount),
{
    match amount {
        Some(d) => d.is_greater_than_zero(),
        None => true,
    }
}

/// Owned copies of the given texts, in the same order.
pub fn to_strings(items: &Vec<&str>) -> (r: Vec<String>)
    ensures
        r.deep_view() == items.deep_view(),
{
    let mut out: Vec<String> = Vec::new();
    let mut i: usize = 0;
    while i < items.len()
        invariant
            i <= items.len(),
            out.len() == i,
            forall|j: int| 0 <= j < i ==> #[trigger] out@[j]@ == items@[j]@,
        decreases items.len() - i,
    {
        out.push(items[i].to_owned());
        i = i + 1;
    }
    proof {
        assert(out.deep_view() =~= items.deep_view());
    }
    out
}

/// A limit-maker, take-profit or take-profit-limit order: the side of an
/// order list that is filled above (or below) the market as a limit.
pub open spec fn is_maker_or_take_profit(t: OrderType) -> bool {
    t == OrderType::LimitMaker || t == OrderType::TakeProfit || t == OrderType::TakeProfitLimit
}

/// A stop-loss or stop-loss-limit order.
pub open spec fn is_stop_loss(t: OrderType) -> bool {
    t == OrderType::StopLoss || t == OrderType::StopLossLimit
}

/// Whether `t` is a limit-maker, take-profit or take-profit-limit order.
pub fn maker_or_take_profit(t: OrderType) -> (r: bool)
    ensures
        r == is_maker_or_take_profit(t),
{
    match t {
        OrderType::LimitMaker | OrderType::TakeProfit | OrderType::TakeProfitLimit => true,
        _ => false,
    }
}

/// Whether `t` is a stop-loss or stop-loss-limit order.
pub fn stop_loss(t: OrderType) -> (r: bool)
    ensures
        r == is_stop_loss(t),
{
    match t {
        OrderType::StopLoss | OrderType::StopLossLimit => true,
        _ => false,
    }
}

/// `FULL` or `MINI`, the two kinds of ticker.
pub open spec fn is_ticker_type(t: Seq<char>) -> bool {
    t == "FULL"@ || t == "MINI"@
}

/// Whether `t` is `FULL` or `MINI`.
pub fn check_ticker_type(t: &str) -> (r: bool)
    ensures
        r == is_ticker_type(t@),
{
    text_equals(t, "FULL") || text_equals(t, "MINI")
}

/// The kline intervals that the exchange knows: seconds, minutes, hours,
/// days, a week and a month.
pub open spec fn is_kline_interval(s: Seq<char>) -> bool {
    ||| s == "1s"@
    ||| s == "1m"@
    ||| s == "3m"@
    ||| s == "5m"@
    ||| s == "15m"@
    ||| s == "30m"@
    ||| s == "1h"@
    ||| s == "2h"@
    ||| s == "4h"@
    ||| s == "6h"@
    ||| s == "8h"@
    ||| s == "12h"@
    ||| s == "1d"@
    ||| s == "3d"@
    ||| s == "1w"@
    ||| s == "1M"@
}

/// Whether `s` is one of the kline intervals.
pub fn check_kline_interval(s: &str) -> (r: bool)
    ensures
        r == is_kline_interval(s@),
{
    text_equals(s, "1s") || text_equals(s, "1m") || text_equals(s, "3m") || text_equals(s, "5m")
        || text_equals(s, "15m") || text_equals(s, "30m") || text_equals(s, "1h") || text_equals(
        s,
        "2h",
    ) || text_equals(s, "4h") || text_equals(s, "6h") || text_equals(s, "8h") || text_equals(s, "12h")
        || text_equals(s, "1d") || text_equals(s, "3d") || text_equals(s, "1w") || text_equals(s, "1M")
}

/// An optional symbol is absent or not blank.
pub open spec fn optional_symbol_validation(symbol: Option<String>) -> Result<(), InvalidParameter> {
    match symbol {
        Some(s) => if blank(s@) {
            Err(InvalidParameter::Empty { parameter: "symbol" })
        } else {
            Ok(())
        },
        None => Ok(()),
    }
}

/// An optional `symbols` parameter is absent or passes `symbols_validation`.
pub open spec fn optional_symbols_validation(symbols: Option<String>, capped: bool) -> Result<
    (),
    InvalidParameter,
> {
    match symbols {
        Some(json) => symbols_validation(json@, capped),
        None => Ok(()),
    }
}

/// An optional `timeZone` parameter is absent or passes `time_zone_validation`.
pub open spec fn optional_time_zone_validation(tz: Option<String>) -> Result<(), InvalidParameter> {
    match tz {
        Some(t) => time_zone_validation(t@),
        None => Ok(()),
    }
}

/// A text without `c` holds it zero times.
pub proof fn lemma_count_absent(s: Seq<char>, c: char)
    requires
        forall|i: int| 0 <= i < s.len() ==> s[i] != c,
    ensures
        count_char(s, c) == 0,
    decreases s.len(),
{
    if s.len() > 0 {
        assert(s.last() == s[s.len() - 1]);
        assert forall|i: int| 0 <= i < s.drop_last().len() implies s.drop_last()[i] != c by {
            assert(s.drop_last()[i] == s[i]);
        }
        lemma_count_absent(s.drop_last(), c);
    }
}

} // verus!
