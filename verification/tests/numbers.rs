use gr2_viewer::decimal::{signed_text, unsigned_text};
use gr2_viewer::element_ui::index_text;

#[test]
fn zero_is_a_single_digit() {
    assert_eq!(unsigned_text(0), "0");
    assert_eq!(signed_text(0), "0");
}

#[test]
fn unsigned_text_has_no_leading_zeros() {
    assert_eq!(unsigned_text(7), "7");
    assert_eq!(unsigned_text(10), "10");
    assert_eq!(unsigned_text(105), "105");
    assert_eq!(unsigned_text(9_000_000_000), "9000000000");
}

#[test]
fn unsigned_text_reaches_the_largest_value() {
    assert_eq!(unsigned_text(u64::MAX), "18446744073709551615");
}

#[test]
fn signed_text_puts_a_minus_before_negative_numbers() {
    assert_eq!(signed_text(-1), "-1");
    assert_eq!(signed_text(-52), "-52");
    assert_eq!(signed_text(1234), "1234");
}

#[test]
fn signed_text_reaches_both_ends() {
    assert_eq!(signed_text(i64::MIN), "-9223372036854775808");
    assert_eq!(signed_text(i64::MAX), "9223372036854775807");
    assert_eq!(signed_text(i32::MIN as i64), "-2147483648");
    assert_eq!(signed_text(i32::MAX as i64), "2147483647");
}

#[test]
fn texts_agree_with_the_default_number_format() {
    let mut n: u64 = 0;
    while n < 2500 {
        assert_eq!(unsigned_text(n), format!("{}", n));
        assert_eq!(signed_text(n as i64 - 1250), format!("{}", n as i64 - 1250));
        n += 1;
    }
    let mut p: u64 = 1;
    while p < u64::MAX / 10 {
        assert_eq!(unsigned_text(p), format!("{}", p));
        assert_eq!(unsigned_text(p - 1), format!("{}", p - 1));
        assert_eq!(signed_text(-(p as i64)), format!("{}", -(p as i64)));
        p *= 10;
    }
}

#[test]
fn index_text_puts_the_index_in_square_brackets() {
    assert_eq!(index_text(0), "[0]");
    assert_eq!(index_text(9), "[9]");
    assert_eq!(index_text(10), "[10]");
    assert_eq!(index_text(589), "[589]");
}
