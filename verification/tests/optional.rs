use std_library_types::decimal::decimal_text;
use std_library_types::option;
use std_library_types::optional::{checked_division, try_division};

#[test]
fn four_by_two_is_two() {
    assert_eq!(checked_division(4, 2), Some(2));
    assert_eq!(try_division(4, 2), "4 / 2 = 2");
}

#[test]
fn one_by_zero_has_no_value() {
    assert_eq!(checked_division(1, 0), None);
    assert_eq!(try_division(1, 0), "1 / 0 failed!");
}

#[test]
fn any_dividend_by_zero_has_no_value() {
    for dividend in [i32::MIN, -7, -1, 0, 1, 7, i32::MAX] {
        assert_eq!(checked_division(dividend, 0), None);
    }
}

#[test]
fn quotients_are_rounded_toward_zero() {
    assert_eq!(checked_division(7, 2), Some(3));
    assert_eq!(checked_division(-7, 2), Some(-3));
    assert_eq!(checked_division(7, -2), Some(-3));
    assert_eq!(checked_division(-7, -2), Some(3));
    assert_eq!(checked_division(1, 2), Some(0));
    assert_eq!(checked_division(-1, 2), Some(0));
    assert_eq!(checked_division(0, -5), Some(0));
}

#[test]
fn quotients_at_the_ends_of_the_range() {
    assert_eq!(checked_division(i32::MIN, 1), Some(i32::MIN));
    assert_eq!(checked_division(i32::MAX, -1), Some(-i32::MAX));
    assert_eq!(checked_division(i32::MIN + 1, -1), Some(i32::MAX));
    assert_eq!(checked_division(i32::MIN, i32::MIN), Some(1));
    assert_eq!(checked_division(i32::MAX, i32::MIN), Some(0));
    assert_eq!(checked_division(i32::MIN, i32::MAX), Some(-1));
    assert_eq!(checked_division(i32::MIN, 2), Some(-1073741824));
}

#[test]
fn quotients_agree_with_the_machine() {
    let samples = [i32::MIN, -1000, -13, -2, -1, 0, 1, 2, 13, 1000, i32::MAX];
    for dividend in samples {
        for divisor in samples {
            if divisor != 0 && !(dividend == i32::MIN && divisor == -1) {
                assert_eq!(checked_division(dividend, divisor), Some(dividend / divisor));
            }
        }
    }
}

#[test]
fn division_lines_with_signs() {
    assert_eq!(try_division(-7, 2), "-7 / 2 = -3");
    assert_eq!(try_division(7, -2), "7 / -2 = -3");
    assert_eq!(try_division(-7, 0), "-7 / 0 failed!");
    assert_eq!(try_division(i32::MIN, 1), "-2147483648 / 1 = -2147483648");
    assert_eq!(try_division(i32::MAX, 10), "2147483647 / 10 = 214748364");
}

#[test]
fn numbers_in_base_ten() {
    assert_eq!(decimal_text(0), "0");
    assert_eq!(decimal_text(7), "7");
    assert_eq!(decimal_text(10), "10");
    assert_eq!(decimal_text(109), "109");
    assert_eq!(decimal_text(-1), "-1");
    assert_eq!(decimal_text(-120), "-120");
    assert_eq!(decimal_text(i32::MAX), "2147483647");
    assert_eq!(decimal_text(i32::MIN), "-2147483648");
}

#[test]
fn numbers_in_base_ten_agree_with_the_standard_library() {
    for n in [-1000001, -99, -10, -9, 0, 9, 10, 11, 99, 100, 101, 65535, 1000000] {
        assert_eq!(decimal_text(n), format!("{}", n));
    }
}

#[test]
fn study_of_optional_values() {
    let tour = option(0f32);
    assert_eq!(tour.divided, "4 / 2 = 2");
    assert_eq!(tour.failed, "1 / 0 failed!");
    assert_eq!(tour.none, None);
    assert_eq!(tour.equivalent_none, None);
    assert_eq!(tour.optional, Some(0f32));
    assert_eq!(tour.unwrapped, 0f32);
}

#[test]
fn unwrapping_gives_what_was_wrapped() {
    let tour = option("present");
    assert_eq!(tour.optional, Some("present"));
    assert_eq!(tour.unwrapped, "present");
}
