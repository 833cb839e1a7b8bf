use gravity_sim::time_format::{format_simulation_time, SECONDS_PER_DAY};

#[test]
fn zero_time() {
    assert_eq!(format_simulation_time(false, 0, 0), "0 00:00:00");
}

#[test]
fn hours_minutes_seconds_in_two_digits() {
    assert_eq!(format_simulation_time(false, 0, 59), "0 00:00:59");
    assert_eq!(format_simulation_time(false, 0, 60), "0 00:01:00");
    assert_eq!(format_simulation_time(false, 0, 3599), "0 00:59:59");
    assert_eq!(format_simulation_time(false, 0, 3600), "0 01:00:00");
    assert_eq!(format_simulation_time(false, 1, 3661), "1 01:01:01");
    assert_eq!(format_simulation_time(false, 12, 45296), "12 12:34:56");
    assert_eq!(format_simulation_time(false, 365, SECONDS_PER_DAY - 1), "365 23:59:59");
}

#[test]
fn negative_time_has_a_sign() {
    assert_eq!(format_simulation_time(true, 0, 1), "-0 00:00:01");
    assert_eq!(format_simulation_time(true, 1000, 86399), "-1000 23:59:59");
}

#[test]
fn days_of_every_length() {
    assert_eq!(format_simulation_time(false, 9, 0), "9 00:00:00");
    assert_eq!(format_simulation_time(false, 10, 0), "10 00:00:00");
    assert_eq!(format_simulation_time(false, 1_000_000, 0), "1000000 00:00:00");
    assert_eq!(
        format_simulation_time(false, i64::MAX as u64, 0),
        "9223372036854775807 00:00:00"
    );
    assert_eq!(
        format_simulation_time(false, u64::MAX, 0),
        "18446744073709551615 00:00:00"
    );
}
