use annepro2_tools::cli::{invalid_target_message, parse_hex, parse_target};
use std::num::IntErrorKind;
use annepro2_tools::target::AP2Target;

#[test]
fn hex_bases_parse_with_or_without_prefix() {
    assert_eq!(parse_hex("0x4000").unwrap(), 0x4000);
    assert_eq!(parse_hex("4000").unwrap(), 0x4000);
    assert_eq!(parse_hex("0xFFFFffff").unwrap(), u32::MAX);
    assert_eq!(parse_hex("+1f").unwrap(), 0x1f);
    assert_eq!(parse_hex("0x+1f").unwrap(), 0x1f);
    assert_eq!(parse_hex("0x0x1").is_err(), true);
    assert!(parse_hex("0x").is_err());
    assert!(parse_hex("").is_err());
    assert!(parse_hex("+").is_err());
    assert!(parse_hex("-1").is_err());
    assert!(parse_hex("0X10").is_err());
    assert!(parse_hex("100000000").is_err());
    assert!(parse_hex(" 10").is_err());
    assert!(parse_hex("1g").is_err());
}

#[test]
fn target_names_ignore_ascii_case() {
    assert_eq!(parse_target("MAIN").unwrap(), AP2Target::McuMain);
    assert_eq!(parse_target("Led").unwrap(), AP2Target::McuLed);
    assert_eq!(parse_target("bLe").unwrap(), AP2Target::McuBle);
    assert!(parse_target("bl").is_err());
    assert!(parse_target("bles").is_err());
    assert!(parse_target("").is_err());
}

#[test]
fn unknown_target_names_are_quoted() {
    assert_eq!(
        parse_target("unknown").unwrap_err(),
        "invalid target \"unknown\"; choose main/key, led, or ble"
    );
    assert_eq!(
        parse_target("a\"b").unwrap_err(),
        "invalid target \"a\\\"b\"; choose main/key, led, or ble"
    );
}

#[test]
fn hex_errors_are_those_of_the_digits_after_the_prefix() {
    assert_eq!(parse_hex("").unwrap_err().kind(), &IntErrorKind::Empty);
    assert_eq!(parse_hex("0x").unwrap_err().kind(), &IntErrorKind::Empty);
    assert_eq!(parse_hex("+").unwrap_err().kind(), &IntErrorKind::InvalidDigit);
    assert_eq!(parse_hex("0xg").unwrap_err().kind(), &IntErrorKind::InvalidDigit);
    assert_eq!(parse_hex("0x100000000").unwrap_err().kind(), &IntErrorKind::PosOverflow);
    for text in ["", "0x", "+", "-1", "0xzz", "12345678901", "0x0x1"] {
        let digits = text.strip_prefix("0x").unwrap_or(text);
        assert_eq!(parse_hex(text), u32::from_str_radix(digits, 16), "{text:?}");
    }
    for n in [0u32, 1, 0x25fe0, u32::MAX] {
        assert_eq!(parse_hex(&format!("0x{n:x}")), Ok(n));
        assert_eq!(parse_hex(&format!("{n:x}")), Ok(n));
        assert_eq!(parse_hex(&format!("{n:08X}")), Ok(n));
    }
}

#[test]
fn refusal_message_wraps_the_quoted_name() {
    assert_eq!(
        invalid_target_message("\"x\""),
        "invalid target \"x\"; choose main/key, led, or ble"
    );
}
