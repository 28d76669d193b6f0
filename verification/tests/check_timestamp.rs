use mpc_signing::mpc::utils::check_timestamp::{
    timestamp_accepted_at, verify_timestamp_10_minute_window, window_contains,
};
use mpc_signing::utils::check_timestamp::is_younger_than_ten_minutes;
use std::time::{Duration, SystemTime, UNIX_EPOCH};

const FIVE_MINUTES: Duration = Duration::from_secs(300);

fn get_now() -> u64 {
    SystemTime::now()
        .duration_since(UNIX_EPOCH)
        .expect("Time went backwards")
        .as_secs()
}

#[test]
fn check_that_now_is_true() {
    assert!(verify_timestamp_10_minute_window(get_now(), FIVE_MINUTES));
}

#[test]
fn check_too_old() {
    let too_old = get_now() - 310;
    assert!(!verify_timestamp_10_minute_window(too_old, FIVE_MINUTES));
}

#[test]
fn check_too_in_the_future() {
    let too_new = get_now() + 310;

    assert!(!verify_timestamp_10_minute_window(too_new, FIVE_MINUTES));
}

#[test]
fn check_timestamp_check_that_now_is_true() {
    let now = SystemTime::now()
        .duration_since(UNIX_EPOCH)
        .expect("Time went backwards");

    assert!(mpc_signing::utils::check_timestamp::verify_timestamp_10_minute_window(now.as_secs()));
}

#[test]
fn check_timestamp_check_too_old() {
    let now = SystemTime::now()
        .duration_since(UNIX_EPOCH)
        .expect("Time went backwards");

    assert!(!mpc_signing::utils::check_timestamp::verify_timestamp_10_minute_window(
        (now - Duration::from_secs(1000)).as_secs()
    ));
}

#[test]
fn window_bounds_are_exact() {
    // the present is 1000.000000005 s, the window 300 s
    assert!(window_contains(1000, 1000, 5, 300, 0));
    assert!(!window_contains(700, 1000, 5, 300, 0));
    assert!(window_contains(701, 1000, 5, 300, 0));
    assert!(window_contains(1300, 1000, 5, 300, 0));
    assert!(!window_contains(1301, 1000, 5, 300, 0));
    // with a present on the full second both bounds are included
    assert!(window_contains(700, 1000, 0, 300, 0));
    assert!(window_contains(1300, 1000, 0, 300, 0));
    assert!(!window_contains(699, 1000, 0, 300, 0));
}

#[test]
fn window_larger_than_the_present_does_not_wrap() {
    assert!(window_contains(0, 100, 0, 300, 0));
    assert!(window_contains(400, 100, 0, 300, 0));
    assert!(!window_contains(401, 100, 0, 300, 0));
    assert!(window_contains(u64::MAX, u64::MAX, 0, u64::MAX, 999_999_999));
    assert!(!window_contains(0, u64::MAX, 0, 1, 0));
}

#[test]
fn window_in_nanoseconds_counts() {
    assert!(!window_contains(1001, 1000, 0, 0, 999_999_999));
    assert!(window_contains(1001, 1000, 1, 0, 999_999_999));
}

#[test]
fn verdict_follows_the_clock_reading() {
    let window = Duration::new(300, 0);
    let now = Some(Duration::new(1000, 5));
    assert!(timestamp_accepted_at(1000, &now, &window));
    assert!(!timestamp_accepted_at(700, &now, &window));
    assert!(timestamp_accepted_at(701, &now, &window));
    assert!(!timestamp_accepted_at(1301, &now, &window));
    assert!(!timestamp_accepted_at(1000, &None, &window));
}

#[test]
fn ten_minutes_is_a_strict_bound() {
    assert!(is_younger_than_ten_minutes(1000, 1000, 0));
    assert!(is_younger_than_ten_minutes(401, 1000, 0));
    assert!(!is_younger_than_ten_minutes(400, 1000, 0));
    assert!(!is_younger_than_ten_minutes(400, 1000, 1));
    assert!(is_younger_than_ten_minutes(5000, 1000, 0));
    assert!(is_younger_than_ten_minutes(0, 599, 999_999_999));
    assert!(!is_younger_than_ten_minutes(0, 600, 0));
}
