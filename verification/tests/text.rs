use mr_copier::text::{json_escape, u32_decimal};

#[test]
fn decimal_zero() {
    assert_eq!(u32_decimal(0), "0");
}

#[test]
fn decimal_one_digit() {
    assert_eq!(u32_decimal(7), "7");
}

#[test]
fn decimal_two_digits() {
    assert_eq!(u32_decimal(42), "42");
}

#[test]
fn decimal_round_number() {
    assert_eq!(u32_decimal(100), "100");
}

#[test]
fn decimal_largest() {
    assert_eq!(u32_decimal(u32::MAX), "4294967295");
}

#[test]
fn escape_plain_text_unchanged() {
    assert_eq!(json_escape("feature/x"), "feature/x");
}

#[test]
fn escape_empty() {
    assert_eq!(json_escape(""), "");
}

#[test]
fn escape_quote_and_backslash() {
    assert_eq!(json_escape("a\"b\\c"), "a\\\"b\\\\c");
}

#[test]
fn escape_common_controls() {
    assert_eq!(json_escape("a\nb\tc\rd"), "a\\nb\\tc\\rd");
}

#[test]
fn escape_rare_control() {
    assert_eq!(json_escape("\u{1}\u{1f}"), "\\u0001\\u001f");
}

#[test]
fn escape_keeps_non_ascii() {
    assert_eq!(json_escape("héllo ∞"), "héllo ∞");
}

#[test]
fn escape_agrees_with_json_parser() {
    let cases = ["plain", "with \"quotes\"", "back\\slash", "line\nbreak", "tab\there", "\u{2} ctl", "héllo"];
    for original in cases {
        let quoted = format!("\"{}\"", json_escape(original));
        let parsed: serde_json::Value = serde_json::from_str(&quoted).unwrap();
        assert_eq!(parsed.as_str().unwrap(), original);
    }
}
