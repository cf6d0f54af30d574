use wolf_power_up::decimal::{i32_to_text, parse_i32};

fn s(x: &str) -> String {
    x.to_string()
}

#[test]
fn text_of_zero_positive_and_negative() {
    assert_eq!(i32_to_text(0), "0");
    assert_eq!(i32_to_text(7), "7");
    assert_eq!(i32_to_text(120), "120");
    assert_eq!(i32_to_text(-5), "-5");
    assert_eq!(i32_to_text(i32::MAX), "2147483647");
    assert_eq!(i32_to_text(i32::MIN), "-2147483648");
}

#[test]
fn text_agrees_with_display() {
    for x in [0, 1, -1, 9, 10, -10, 99, 100, 12345, -98765, i32::MAX, i32::MIN] {
        assert_eq!(i32_to_text(x), x.to_string());
    }
}

#[test]
fn parse_accepts_signed_digits() {
    assert_eq!(parse_i32(&s("0")), Some(0));
    assert_eq!(parse_i32(&s("42")), Some(42));
    assert_eq!(parse_i32(&s("+42")), Some(42));
    assert_eq!(parse_i32(&s("-42")), Some(-42));
    assert_eq!(parse_i32(&s("-0")), Some(0));
    assert_eq!(parse_i32(&s("007")), Some(7));
    assert_eq!(parse_i32(&s("2147483647")), Some(i32::MAX));
    assert_eq!(parse_i32(&s("-2147483648")), Some(i32::MIN));
}

#[test]
fn parse_refuses_what_i32_refuses() {
    for bad in ["", "-", "+", " 1", "1 ", "1a", "a1", "--1", "+-1", "1.0", "2147483648", "-2147483649", "99999999999999999999", "٣"] {
        assert_eq!(parse_i32(&s(bad)), None, "{bad}");
        assert!(bad.parse::<i32>().is_err());
    }
}

#[test]
fn parse_agrees_with_std() {
    for t in ["12", "+0", "-17", "0000000000000000000001", "1000000", "-2147483647"] {
        assert_eq!(parse_i32(&s(t)), t.parse::<i32>().ok(), "{t}");
    }
}

#[test]
fn text_reads_back() {
    for x in [0, 3, -3, 1_000_000, i32::MAX, i32::MIN, -1] {
        assert_eq!(parse_i32(&i32_to_text(x)), Some(x));
    }
}
