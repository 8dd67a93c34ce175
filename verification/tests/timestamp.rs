use exospot::timestamp::display_timestamp;

#[test]
fn zero_is_all_zeros() {
    assert_eq!(display_timestamp(0), "00:00");
}

#[test]
fn thirty_second_preview() {
    assert_eq!(display_timestamp(30_000), "00:30");
}

#[test]
fn seconds_are_zero_padded() {
    assert_eq!(display_timestamp(65_000), "01:05");
}

#[test]
fn sub_second_remainder_is_dropped() {
    assert_eq!(display_timestamp(125_999), "02:05");
}

#[test]
fn just_under_one_minute() {
    assert_eq!(display_timestamp(59_999), "00:59");
}

#[test]
fn two_digit_minutes_fill_the_field() {
    assert_eq!(display_timestamp(5_999_000), "99:59");
}

#[test]
fn minutes_widen_past_two_digits() {
    assert_eq!(display_timestamp(6_000_000), "100:00");
    assert_eq!(display_timestamp(60_000_000), "1000:00");
}
