use analog_clock::display::{format_elapsed, format_wall_clock};

#[test]
fn elapsed_zero() {
    assert_eq!(format_elapsed(0), "00:00.000");
}

#[test]
fn elapsed_five_seconds() {
    assert_eq!(format_elapsed(5_000), "00:05.000");
}

#[test]
fn elapsed_just_under_a_minute() {
    assert_eq!(format_elapsed(59_999), "00:59.999");
}

#[test]
fn elapsed_with_every_field_set() {
    assert_eq!(format_elapsed(61_001), "01:01.001");
    assert_eq!(format_elapsed(3_723_456), "62:03.456");
}

#[test]
fn elapsed_minutes_grow_past_two_digits() {
    assert_eq!(format_elapsed(6_000_000), "100:00.000");
    assert_eq!(format_elapsed(60_000_000), "1000:00.000");
}

#[test]
fn wall_clock_heading() {
    assert_eq!(format_wall_clock(3, 15, 30), "03:15:30");
    assert_eq!(format_wall_clock(23, 5, 9), "23:05:09");
    assert_eq!(format_wall_clock(0, 0, 0), "00:00:00");
}
