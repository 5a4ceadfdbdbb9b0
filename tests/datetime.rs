use embedded_td::{fmt_as_rfc3339_nanos, to_rfc3339_nanos, DateTime};

fn at(nanosecond: u32) -> DateTime {
    DateTime { year: 2023, month: 1, day: 9, hour: 7, minute: 5, second: 3, nanosecond }
}

#[test]
fn whole_second_has_no_fraction() {
    assert_eq!(to_rfc3339_nanos(at(0)), "2023-01-09T07:05:03Z");
}

#[test]
fn half_second_has_one_digit() {
    assert_eq!(to_rfc3339_nanos(at(500_000_000)), "2023-01-09T07:05:03.5Z");
}

#[test]
fn one_nanosecond_has_nine_digits() {
    assert_eq!(to_rfc3339_nanos(at(1)), "2023-01-09T07:05:03.000000001Z");
}

#[test]
fn trailing_zeros_are_left_out() {
    assert_eq!(to_rfc3339_nanos(at(120_000_000)), "2023-01-09T07:05:03.12Z");
    assert_eq!(to_rfc3339_nanos(at(999_999_999)), "2023-01-09T07:05:03.999999999Z");
}

#[test]
fn small_years_are_padded() {
    let t = DateTime { year: 7, month: 12, day: 31, hour: 23, minute: 59, second: 59, nanosecond: 0 };
    assert_eq!(to_rfc3339_nanos(t), "0007-12-31T23:59:59Z");
}

#[test]
fn formatting_appends_to_what_is_there() {
    let mut s = String::from("at ");
    fmt_as_rfc3339_nanos(&at(0), &mut s);
    assert_eq!(s, "at 2023-01-09T07:05:03Z");
}
