use sextant::fixed::{div_floor, div_round, saturate_i64, DIV_ROUND_LIMIT};
use sextant::text::{push_decimal, push_two_wide, push_two_wide_integer};

#[test]
fn rounded_quotients() {
    assert_eq!(div_round(0, 10), 0);
    assert_eq!(div_round(4, 10), 0);
    assert_eq!(div_round(5, 10), 1);
    assert_eq!(div_round(14, 10), 1);
    assert_eq!(div_round(15, 10), 2);
    assert_eq!(div_round(-4, 10), 0);
    assert_eq!(div_round(-5, 10), -1);
    assert_eq!(div_round(-15, 10), -2);
    assert_eq!(div_round(7, 1), 7);
    assert_eq!(div_round(1, 3), 0);
    assert_eq!(div_round(2, 3), 1);
    assert_eq!(div_round(-2, 3), -1);
}

#[test]
fn rounded_quotients_are_odd_in_the_dividend() {
    for d in [1i128, 2, 3, 7, 10, 365, 1_000_000_000_000_000_000] {
        for n in [0i128, 1, 2, 3, 5, 182, 183, 364, 365, 999, 499_999_999_999_999_999_999] {
            assert_eq!(div_round(-n, d), -div_round(n, d));
            let q = div_round(n, d);
            assert!((2 * (q * d - n)).abs() <= d);
        }
    }
}

#[test]
fn rounded_quotients_at_the_limit() {
    assert_eq!(div_round(DIV_ROUND_LIMIT, DIV_ROUND_LIMIT), 1);
    assert_eq!(div_round(-DIV_ROUND_LIMIT, DIV_ROUND_LIMIT), -1);
    assert_eq!(div_round(DIV_ROUND_LIMIT, 1), DIV_ROUND_LIMIT);
    assert_eq!(div_round(-DIV_ROUND_LIMIT, 1), -DIV_ROUND_LIMIT);
    assert_eq!(div_round(1, DIV_ROUND_LIMIT), 0);
}

#[test]
fn floored_quotients() {
    assert_eq!(div_floor(7, 2), (3, 1));
    assert_eq!(div_floor(-7, 2), (-4, 1));
    assert_eq!(div_floor(-8, 2), (-4, 0));
    assert_eq!(div_floor(0, 5), (0, 0));
    assert_eq!(div_floor(-1, 3_600_000_000), (-1, 3_599_999_999));
    assert_eq!(div_floor(i128::MAX, 1), (i128::MAX, 0));
    assert_eq!(div_floor(i128::MIN + 1, 1), (i128::MIN + 1, 0));
    for n in -50i128..50 {
        for d in 1i128..9 {
            assert_eq!(div_floor(n, d), (n.div_euclid(d), n.rem_euclid(d)));
        }
    }
}

#[test]
fn saturation() {
    assert_eq!(saturate_i64(0), 0);
    assert_eq!(saturate_i64(-17), -17);
    assert_eq!(saturate_i64(i64::MAX as i128), i64::MAX);
    assert_eq!(saturate_i64(i64::MAX as i128 + 1), i64::MAX);
    assert_eq!(saturate_i64(i64::MIN as i128), i64::MIN);
    assert_eq!(saturate_i64(i64::MIN as i128 - 1), i64::MIN);
    assert_eq!(saturate_i64(i128::MAX), i64::MAX);
    assert_eq!(saturate_i64(i128::MIN), i64::MIN);
}

#[test]
fn decimal_digits() {
    for value in [0u64, 1, 9, 10, 11, 99, 100, 101, 1234567890, u64::MAX] {
        let mut text = String::from("x");
        push_decimal(&mut text, value);
        assert_eq!(text, format!("x{value}"));
    }
}

#[test]
fn at_least_two_characters() {
    for value in [0i64, 1, 9, 10, 99, 100, -1, -9, -10, -100, i64::MAX, i64::MIN] {
        let mut text = String::new();
        push_two_wide_integer(&mut text, value);
        assert_eq!(text, format!("{value:02}"));
    }
    let mut text = String::from(">");
    push_two_wide(&mut text, true, 0);
    push_two_wide(&mut text, false, 0);
    push_two_wide(&mut text, false, 12);
    push_two_wide(&mut text, true, u64::MAX);
    assert_eq!(text, ">-00012-18446744073709551615");
}
