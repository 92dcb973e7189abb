use botcore::Uptime;
use botcore::elapsed_string;
use botcore::u64_to_decimal;

#[test]
fn decimal_single_digits() {
    assert_eq!(u64_to_decimal(0), "0");
    assert_eq!(u64_to_decimal(7), "7");
    assert_eq!(u64_to_decimal(9), "9");
}

#[test]
fn decimal_multi_digits() {
    assert_eq!(u64_to_decimal(10), "10");
    assert_eq!(u64_to_decimal(42), "42");
    assert_eq!(u64_to_decimal(90061), "90061");
    assert_eq!(u64_to_decimal(1000000), "1000000");
}

#[test]
fn decimal_largest() {
    assert_eq!(u64_to_decimal(u64::MAX), "18446744073709551615");
}

#[test]
fn elapsed_zero() {
    assert_eq!(elapsed_string(0), "0 days, 0 hours, 0 minutes, 0 seconds");
}

#[test]
fn elapsed_one_of_each() {
    assert_eq!(elapsed_string(90061), "1 days, 1 hours, 1 minutes, 1 seconds");
}

#[test]
fn elapsed_just_under_a_day() {
    assert_eq!(
        elapsed_string(86399),
        "0 days, 23 hours, 59 minutes, 59 seconds"
    );
}

#[test]
fn elapsed_exact_boundaries() {
    assert_eq!(elapsed_string(60), "0 days, 0 hours, 1 minutes, 0 seconds");
    assert_eq!(elapsed_string(3600), "0 days, 1 hours, 0 minutes, 0 seconds");
    assert_eq!(elapsed_string(86400), "1 days, 0 hours, 0 minutes, 0 seconds");
}

#[test]
fn elapsed_recomposes() {
    for secs in [0u64, 1, 59, 60, 3599, 3600, 86399, 86400, 90061, 987654321] {
        let days = secs / 86400;
        let hours = (secs % 86400) / 3600;
        let minutes = (secs % 3600) / 60;
        let seconds = secs % 60;
        assert_eq!(days * 86400 + hours * 3600 + minutes * 60 + seconds, secs);
        let expected = format!(
            "{} days, {} hours, {} minutes, {} seconds",
            days, hours, minutes, seconds
        );
        assert_eq!(elapsed_string(secs), expected);
    }
}

#[test]
fn tracker_elapsed_seconds() {
    let u = Uptime::from_start_seconds(1000);
    assert_eq!(u.elapsed_seconds(1000), 0);
    assert_eq!(u.elapsed_seconds(91061), 90061);
}

#[test]
fn tracker_clock_moved_backward() {
    let u = Uptime::from_start_seconds(1000);
    assert_eq!(u.elapsed_seconds(999), 0);
    assert_eq!(u.elapsed_seconds(i64::MIN), 0);
}

#[test]
fn tracker_extreme_epochs() {
    let u = Uptime::from_start_seconds(i64::MIN);
    assert_eq!(u.elapsed_seconds(i64::MAX), u64::MAX);
    let u = Uptime::from_start_seconds(-90061);
    assert_eq!(u.elapsed_seconds(0), 90061);
}

#[test]
fn tracker_renders_against_real_clock() {
    let now = time::OffsetDateTime::now_utc().unix_timestamp();
    let u = Uptime::from_start_seconds(now - 90061);
    // The clock may tick a few seconds between the two readings, but not a
    // whole minute.
    assert!(u.to_str().starts_with("1 days, 1 hours, 1 minutes, "));
}

#[test]
fn fresh_tracker_renders_a_line() {
    let u = Uptime::new();
    let s = u.to_str();
    assert!(s.contains(" days, "));
    assert!(s.contains(" hours, "));
    assert!(s.contains(" minutes, "));
    assert!(s.ends_with(" seconds"));
}
