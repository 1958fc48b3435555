//! The expiry evaluator on concrete values, unit by unit.

use cacher::expiry::{check_if_expired, is_expired_at};
use cacher::{CacherDateRemainingUnit, CacherError};

const DAY_MS: i64 = 86_400_000;
const WEEK_MS: i64 = 604_800_000;

#[test]
fn days_boundary() {
    // Nine full days elapsed.
    let now = 9 * DAY_MS;
    assert!(is_expired_at(0, now, CacherDateRemainingUnit::Days, 9));
    assert!(!is_expired_at(0, now, CacherDateRemainingUnit::Days, 10));
    // One millisecond short of nine days: truncation keeps it at eight.
    assert!(!is_expired_at(0, now - 1, CacherDateRemainingUnit::Days, 9));
}

#[test]
fn sub_units_truncate() {
    assert!(is_expired_at(0, 999, CacherDateRemainingUnit::Milliseconds, 999));
    assert!(!is_expired_at(0, 999, CacherDateRemainingUnit::Seconds, 1));
    assert!(is_expired_at(0, 1000, CacherDateRemainingUnit::Seconds, 1));
    assert!(is_expired_at(0, 60_000, CacherDateRemainingUnit::Minutes, 1));
    assert!(!is_expired_at(0, 59_999, CacherDateRemainingUnit::Minutes, 1));
    assert!(is_expired_at(0, 3_600_000, CacherDateRemainingUnit::Hours, 1));
    assert!(is_expired_at(0, WEEK_MS, CacherDateRemainingUnit::Weeks, 1));
    assert!(!is_expired_at(0, WEEK_MS - 1, CacherDateRemainingUnit::Weeks, 1));
}

#[test]
fn months_are_four_weeks() {
    assert!(is_expired_at(0, 4 * WEEK_MS, CacherDateRemainingUnit::Months, 1));
    assert!(!is_expired_at(0, 4 * WEEK_MS - 1, CacherDateRemainingUnit::Months, 1));
    // Five weeks is still one month after truncation.
    assert!(!is_expired_at(0, 5 * WEEK_MS, CacherDateRemainingUnit::Months, 2));
}

#[test]
fn years_are_twelve_weeks_of_months() {
    assert!(is_expired_at(0, 12 * WEEK_MS, CacherDateRemainingUnit::Years, 1));
    assert!(!is_expired_at(0, 12 * WEEK_MS - 1, CacherDateRemainingUnit::Years, 1));
}

#[test]
fn zero_magnitude_is_always_expired() {
    for unit in [
        CacherDateRemainingUnit::Milliseconds,
        CacherDateRemainingUnit::Seconds,
        CacherDateRemainingUnit::Minutes,
        CacherDateRemainingUnit::Hours,
        CacherDateRemainingUnit::Days,
        CacherDateRemainingUnit::Weeks,
        CacherDateRemainingUnit::Months,
        CacherDateRemainingUnit::Years,
    ] {
        assert!(is_expired_at(0, 0, unit, 0));
        assert!(is_expired_at(0, 12345, unit, 0));
    }
}

#[test]
fn negative_elapsed_truncates_toward_zero() {
    // An envelope "created" half a second in the future: zero whole seconds
    // have elapsed, so a zero threshold is already met.
    assert!(is_expired_at(1, 500, CacherDateRemainingUnit::Seconds, 0));
    assert!(!is_expired_at(1, 500, CacherDateRemainingUnit::Seconds, 1));
}

#[test]
fn check_if_expired_parses_its_inputs() {
    assert_eq!(
        check_if_expired("1970-01-01 00:00:00", "Days", 9, 9 * DAY_MS),
        Ok(true)
    );
    assert_eq!(
        check_if_expired("1970-01-01 00:00:00", "Days", 10, 9 * DAY_MS),
        Ok(false)
    );
    // One minute past the epoch as the creation time.
    assert_eq!(
        check_if_expired("1970-01-01 00:01:00", "Seconds", 60, 120_000),
        Ok(true)
    );
    assert_eq!(
        check_if_expired("not a timestamp", "Days", 1, 0),
        Err(CacherError::InvalidTimestamp)
    );
    assert_eq!(
        check_if_expired("1970-01-01 00:00:00", "Eons", 1, 0),
        Err(CacherError::UnrecognizedUnit)
    );
    // The timestamp is checked before the unit.
    assert_eq!(
        check_if_expired("garbage", "Eons", 1, 0),
        Err(CacherError::InvalidTimestamp)
    );
}
