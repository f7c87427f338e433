use binance_spot_rs::text::{is_blank, parse_i32, parse_u32, text_equals, u8_text};
use binance_spot_rs::types::requests::common::{
    check_kline_interval, check_symbol_list, check_ticker_type, is_positive_if_set,
    maker_or_take_profit, stop_loss, to_strings,
};
use binance_spot_rs::decimal::Decimal;
use binance_spot_rs::enums::OrderType;
use binance_spot_rs::errors::InvalidParameter;

#[test]
fn blank_means_only_white_space() {
    assert!(is_blank(""));
    assert!(is_blank(" \t\n\r"));
    assert!(is_blank("\u{3000}\u{a0}"));
    assert!(!is_blank(" a "));
    assert!(!is_blank("\u{200b}"), "a zero-width space is not white space");
}

#[test]
fn parses_signed_and_unsigned_decimals_as_std_does() {
    for s in ["0", "-0", "+7", "-12", "2147483647", "-2147483648", "007", "", "-", "+", "1 ", "٣", "2147483648", "--1", "+-1"] {
        assert_eq!(parse_i32(s), s.parse::<i32>().ok(), "{:?}", s);
    }
    for s in ["0", "+7", "-1", "4294967295", "4294967296", "99999999999999999999", "", "1e3"] {
        assert_eq!(parse_u32(s), s.parse::<u32>().ok(), "{:?}", s);
    }
}

#[test]
fn byte_numerals() {
    for n in [0u8, 7, 10, 99, 100, 255] {
        assert_eq!(u8_text(n), n.to_string());
    }
}

#[test]
fn texts_compare_by_characters() {
    assert!(text_equals("abc", "abc"));
    assert!(!text_equals("abc", "abd"));
    assert!(!text_equals("ab", "abc"));
    assert!(text_equals("", ""));
}

#[test]
fn small_checks() {
    assert!(check_kline_interval("12h"));
    assert!(!check_kline_interval("12H"));
    assert!(check_ticker_type("MINI"));
    assert!(!check_ticker_type("MINI "));
    assert!(is_positive_if_set(None));
    assert!(!is_positive_if_set(Some(Decimal::new(0, 1))));
    assert!(maker_or_take_profit(OrderType::TakeProfitLimit));
    assert!(!maker_or_take_profit(OrderType::StopLoss));
    assert!(stop_loss(OrderType::StopLossLimit));
    assert!(!stop_loss(OrderType::Market));
    assert_eq!(to_strings(&vec!["a", "b"]), vec!["a".to_string(), "b".to_string()]);
}

#[test]
fn symbol_lists_read_from_json() {
    let list = vec!["BTCUSDT".to_string()];
    assert_eq!(check_symbol_list(Some(&list), true), Ok(()));
    assert_eq!(
        check_symbol_list(None, false),
        Err(InvalidParameter::Invalid { parameter: "symbols", reason: "must be valid JSON array" })
    );
    assert_eq!(check_symbol_list(Some(&vec![]), false), Err(InvalidParameter::Empty { parameter: "symbols" }));
}
