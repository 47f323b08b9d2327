use mpvtui::numfmt::{get_pretty_time, percentage, u64_to_dec, u64_two_digits};

#[test]
fn pretty_time_minutes_and_seconds() {
    assert_eq!(get_pretty_time(65), "01:05");
}

#[test]
fn pretty_time_with_hours() {
    assert_eq!(get_pretty_time(3661), "01:01:01");
}

#[test]
fn pretty_time_zero() {
    assert_eq!(get_pretty_time(0), "00:00");
}

#[test]
fn pretty_time_just_under_an_hour() {
    assert_eq!(get_pretty_time(3599), "59:59");
}

#[test]
fn pretty_time_exactly_an_hour() {
    assert_eq!(get_pretty_time(3600), "01:00:00");
}

#[test]
fn pretty_time_wide_hours_keep_all_digits() {
    assert_eq!(get_pretty_time(360000), "100:00:00");
}

#[test]
fn percentage_of_zero_duration_is_zero() {
    assert_eq!(percentage(42, 0), 0);
}

#[test]
fn percentage_halfway() {
    assert_eq!(percentage(65, 130), 50);
}

#[test]
fn percentage_rounds_down() {
    assert_eq!(percentage(1, 3), 33);
}

#[test]
fn percentage_at_the_end() {
    assert_eq!(percentage(130, 130), 100);
}

#[test]
fn decimal_digits() {
    assert_eq!(u64_to_dec(0), "0");
    assert_eq!(u64_to_dec(7), "7");
    assert_eq!(u64_to_dec(10), "10");
    assert_eq!(u64_to_dec(90210), "90210");
}

#[test]
fn two_digit_fields_pad_with_zero() {
    assert_eq!(u64_two_digits(0), "00");
    assert_eq!(u64_two_digits(9), "09");
    assert_eq!(u64_two_digits(10), "10");
    assert_eq!(u64_two_digits(123), "123");
}
