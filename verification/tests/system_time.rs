use mock_time::Duration;
use mock_time::SystemTime;
use mock_time::SystemTimeError;
use mock_time::unix_epoch;

#[test]
fn duration_round_trips_seconds() {
    assert_eq!(Duration::from_secs(0).as_secs(), 0);
    assert_eq!(Duration::from_secs(12_345).as_secs(), 12_345);
    assert_eq!(Duration::from_secs(u64::MAX).as_secs(), u64::MAX);
}

#[test]
fn epoch_tuple_equals_unix_epoch() {
    assert_eq!(SystemTime::with_ymd_and_hms(1970, 1, 1, 0, 0, 0), unix_epoch());
}

#[test]
fn now_is_deterministic_and_ten_seconds() {
    assert_eq!(SystemTime::now(), SystemTime::now());
    let since_epoch = SystemTime::now().duration_since(unix_epoch()).unwrap();
    assert_eq!(since_epoch.as_secs(), 10);
}

#[test]
fn identity_subtraction_is_zero() {
    let t = SystemTime::with_ymd_and_hms(1999, 12, 31, 23, 59, 59);
    assert_eq!(t.duration_since(t), Ok(Duration::from_secs(0)));
    assert_eq!(unix_epoch().duration_since(unix_epoch()), Ok(Duration::from_secs(0)));
}

#[test]
fn one_minute_since_epoch() {
    let t = SystemTime::with_ymd_and_hms(1970, 1, 1, 0, 1, 0);
    assert_eq!(t.duration_since(unix_epoch()), Ok(Duration::from_secs(60)));
}

#[test]
fn backwards_subtraction_fails() {
    let later = SystemTime::with_ymd_and_hms(1970, 1, 1, 0, 0, 1);
    assert_eq!(
        unix_epoch().duration_since(later),
        Err(SystemTimeError::NegativeDuration)
    );
}

#[test]
fn forward_difference_is_arithmetic_difference() {
    let a = SystemTime::with_ymd_and_hms(1971, 1, 1, 0, 0, 0);
    let b = SystemTime::with_ymd_and_hms(1970, 12, 31, 23, 59, 0);
    assert_eq!(a.duration_since(b), Ok(Duration::from_secs(60)));
}

#[test]
fn times_order_by_epoch_count() {
    let earlier = SystemTime::with_ymd_and_hms(1970, 6, 1, 0, 0, 0);
    let later = SystemTime::with_ymd_and_hms(1970, 6, 1, 0, 0, 1);
    assert!(earlier < later);
    assert!(earlier <= earlier);
    assert_ne!(earlier, later);
}

#[test]
fn civil_tuples_with_equal_epoch_counts_are_equal() {
    // Day 32 of December 1970 runs past the month's end and lands, through
    // the raw day count of 365, on the same instant as 1971-01-01.
    let a = SystemTime::with_ymd_and_hms(1970, 12, 32, 0, 0, 0);
    let b = SystemTime::with_ymd_and_hms(1971, 1, 1, 0, 0, 0);
    assert_eq!(a, b);
}
