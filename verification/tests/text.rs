use performance_tracker::fixed::{
    absolute, divide, power_of_ten, saturating_difference, saturating_product, saturating_sum,
    SCALE,
};
use performance_tracker::text::{
    append_digits, append_padded_digits, append_spaces, begins_with, contains, ends_with,
    format_decimal, pad_end, pad_start, same_text,
};

#[test]
fn one_unit_is_a_billion_steps() {
    assert_eq!(SCALE, 1_000_000_000);
    assert_eq!(power_of_ten(9), SCALE as u64);
    assert_eq!(power_of_ten(0), 1);
    assert_eq!(power_of_ten(3), 1_000);
}

#[test]
fn sums_stop_at_the_ends_of_the_range() {
    assert_eq!(saturating_sum(2, 3), 5);
    assert_eq!(saturating_sum(i64::MAX, 1), i64::MAX);
    assert_eq!(saturating_sum(i64::MIN, -1), i64::MIN);
    assert_eq!(saturating_difference(2, 3), -1);
    assert_eq!(saturating_difference(i64::MIN, 1), i64::MIN);
    assert_eq!(saturating_difference(i64::MAX, -1), i64::MAX);
    assert_eq!(saturating_product(850_000_000, 100), 85_000_000_000);
    assert_eq!(saturating_product(i64::MAX, 2), i64::MAX);
    assert_eq!(saturating_product(i64::MAX, -2), i64::MIN);
    assert_eq!(saturating_product(i64::MIN, i64::MIN), i64::MAX);
}

#[test]
fn quotients_round_toward_zero() {
    assert_eq!(divide(7, 2), 3);
    assert_eq!(divide(-7, 2), -3);
    assert_eq!(divide(1_999, 1_000), 1);
    assert_eq!(divide(-1_999, 1_000), -1);
    assert_eq!(divide(i64::MIN, 1), i64::MIN);
    assert_eq!(divide(i64::MIN, u64::MAX), 0);
}

#[test]
fn absolute_value_of_the_least_value_fits() {
    assert_eq!(absolute(-5), 5);
    assert_eq!(absolute(5), 5);
    assert_eq!(absolute(0), 0);
    assert_eq!(absolute(i64::MIN), 9_223_372_036_854_775_808);
}

#[test]
fn digits_are_written_without_leading_zeros() {
    let mut out = String::from("n=");
    append_digits(&mut out, 0);
    append_digits(&mut out, 7);
    append_digits(&mut out, 1_024);
    append_digits(&mut out, u64::MAX);
    assert_eq!(out, "n=07102418446744073709551615");
}

#[test]
fn padded_digits_keep_their_width() {
    let mut out = String::new();
    append_padded_digits(&mut out, 5, 3);
    out.push('|');
    append_padded_digits(&mut out, 12_345, 3);
    out.push('|');
    append_padded_digits(&mut out, 9, 0);
    assert_eq!(out, "005|345|");
}

#[test]
fn spaces_are_appended() {
    let mut out = String::from("a");
    append_spaces(&mut out, 3);
    append_spaces(&mut out, 0);
    out.push('b');
    assert_eq!(out, "a   b");
}

#[test]
fn decimals_are_rounded_to_the_nearest() {
    assert_eq!(format_decimal(1_200_000_000, 2, false), "1.20");
    assert_eq!(format_decimal(85_000_000_000, 2, false), "85.00");
    assert_eq!(format_decimal(1_234_567_890, 2, false), "1.23");
    assert_eq!(format_decimal(1_235_000_000, 2, false), "1.24");
    assert_eq!(format_decimal(1_234_999_999, 2, false), "1.23");
    assert_eq!(format_decimal(999_999_999, 1, false), "1.0");
    assert_eq!(format_decimal(0, 2, false), "0.00");
    assert_eq!(format_decimal(12_500_000_000, 0, false), "13");
    assert_eq!(format_decimal(12_499_999_999, 0, false), "12");
}

#[test]
fn negative_decimals_round_away_from_zero() {
    assert_eq!(format_decimal(-1_235_000_000, 2, false), "-1.24");
    assert_eq!(format_decimal(-3_500_000_000, 1, false), "-3.5");
    assert_eq!(format_decimal(-4_000_000, 2, false), "0.00");
    assert_eq!(format_decimal(-5_000_000, 2, false), "-0.01");
}

#[test]
fn a_plus_is_written_where_asked_for() {
    assert_eq!(format_decimal(12_000_000_000, 1, true), "+12.0");
    assert_eq!(format_decimal(0, 1, true), "+0.0");
    assert_eq!(format_decimal(-12_000_000_000, 1, true), "-12.0");
    assert_eq!(format_decimal(-1, 1, true), "+0.0");
}

#[test]
fn nine_decimals_are_exact() {
    assert_eq!(format_decimal(1_200_000_000, 9, false), "1.200000000");
    assert_eq!(format_decimal(-1, 9, false), "-0.000000001");
    assert_eq!(format_decimal(i64::MAX, 9, false), "9223372036.854775807");
    assert_eq!(format_decimal(i64::MIN, 9, false), "-9223372036.854775808");
    assert_eq!(format_decimal(1_200_000_000, 200, false), "1.200000000");
}

#[test]
fn text_is_padded_to_a_width() {
    assert_eq!(pad_start("1.5", 6), "   1.5");
    assert_eq!(pad_start("123456789", 6), "123456789");
    assert_eq!(pad_start("", 2), "  ");
    assert_eq!(pad_end("baseline", 18), "baseline          ");
    assert_eq!(pad_end("a-name-longer-than-the-column", 18), "a-name-longer-than-the-column");
    assert_eq!(pad_end("\u{e9}t\u{e9}", 5), "\u{e9}t\u{e9}  ");
    assert_eq!(pad_start("\u{394}", 3), "  \u{394}");
}

#[test]
fn texts_are_compared() {
    assert!(same_text("abc", "abc"));
    assert!(!same_text("abc", "abd"));
    assert!(!same_text("abc", "ab"));
    assert!(same_text("", ""));
    assert!(begins_with("abc", "ab"));
    assert!(begins_with("abc", ""));
    assert!(begins_with("abc", "abc"));
    assert!(!begins_with("abc", "bc"));
    assert!(!begins_with("ab", "abc"));
    assert!(ends_with("abc", "bc"));
    assert!(ends_with("abc", ""));
    assert!(!ends_with("abc", "ab"));
    assert!(!ends_with("bc", "abc"));
    assert!(ends_with("h\u{e9}llo", "\u{e9}llo"));
    assert!(contains("abcde", "bcd"));
    assert!(contains("abcde", "e"));
    assert!(contains("abcde", ""));
    assert!(contains("", ""));
    assert!(!contains("abcde", "bd"));
    assert!(!contains("abc", "abcd"));
    assert!(contains("h\u{e9}llo w\u{f6}rld", "w\u{f6}r"));
}
