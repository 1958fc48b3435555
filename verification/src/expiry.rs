//! The expiry evaluator: given a creation timestamp, a TTL unit and a
//! magnitude, decides whether at least that many units have elapsed.
//!
//! Elapsed time is `now - createdAt`: an envelope created in the past has a
//! non-negative elapsed time, and is expired once the elapsed time, converted
//! to the requested unit, reaches the magnitude.  Sub-units truncate toward
//! zero; a month is approximated as four weeks and a year as twelve.
//!
//! Wall-clock reads and the fixed `YYYY-MM-DD HH:MM:SS` timestamp format are
//! delegated to the `chrono` crate behind trusted wrappers.

use vstd::prelude::*;
use vstd::arithmetic::div_mod::{lemma_div_nonincreasing, lemma_div_pos_is_pos};
use crate::errors::CacherError;
use crate::variants::{CacherDateRemainingUnit, parse_unit_spec};

verus! {

/// What parsing a string with the fixed `%Y-%m-%d %H:%M:%S` format yields:
/// the UTC Unix-epoch seconds of the parsed instant, or `None` when the
/// string does not match the format.
pub uninterp spec fn timestamp_seconds(s: Seq<char>) -> Option<i64>;

/// Relies on `chrono::NaiveDateTime::parse_from_str` with the fixed format,
/// then `NaiveDateTime::and_utc` and `DateTime::timestamp`: the result is a
/// function of the string alone.
#[verifier::external_body]
fn parse_timestamp(s: &str) -> (r: Option<i64>)
    ensures
        r == timestamp_seconds(s@),
{
    match chrono::NaiveDateTime::parse_from_str(s, "%Y-%m-%d %H:%M:%S") {
        Ok(dt) => Some(dt.and_utc().timestamp()),
        Err(_) => None,
    }
}

/// Relies on `chrono::Utc::now` and `DateTime::format` with the fixed
/// format: formatting any instant at second precision yields a string that
/// the same format parses back.
#[verifier::external_body]
pub fn now_formatted() -> (r: String)
    ensures
        timestamp_seconds(r@) is Some,
{
    chrono::Utc::now().format("%Y-%m-%d %H:%M:%S").to_string()
}

/// Relies on `chrono::Utc::now` and `DateTime::timestamp_millis`.  Nothing
/// can be promised of the clock's reading.
#[verifier::external_body]
pub fn now_unix_millis() -> (r: i64) {
    chrono::Utc::now().timestamp_millis()
}

/// Division truncating toward zero, as the reference unit conversions use.
pub open spec fn div_trunc(a: int, d: int) -> int
    recommends
        d >= 1,
{
    if a >= 0 {
        a / d
    } else {
        -((-a) / d)
    }
}

/// An elapsed time in milliseconds converted to `unit`, truncating toward
/// zero; months and years go through whole weeks first.
pub open spec fn elapsed_in_unit(elapsed_ms: int, unit: CacherDateRemainingUnit) -> int {
    match unit {
        CacherDateRemainingUnit::Milliseconds => elapsed_ms,
        CacherDateRemainingUnit::Seconds => div_trunc(elapsed_ms, 1000),
        CacherDateRemainingUnit::Minutes => div_trunc(elapsed_ms, 60000),
        CacherDateRemainingUnit::Hours => div_trunc(elapsed_ms, 3600000),
        CacherDateRemainingUnit::Days => div_trunc(elapsed_ms, 86400000),
        CacherDateRemainingUnit::Weeks => div_trunc(elapsed_ms, 604800000),
        CacherDateRemainingUnit::Months => div_trunc(div_trunc(elapsed_ms, 604800000), 4),
        CacherDateRemainingUnit::Years => div_trunc(div_trunc(elapsed_ms, 604800000), 12),
    }
}

/// An envelope created at `created_s` (Unix seconds) is expired at `now_ms`
/// (Unix milliseconds) once the elapsed time in `unit` reaches `magnitude`.
pub open spec fn expired_spec(
    created_s: i64,
    now_ms: i64,
    unit: CacherDateRemainingUnit,
    magnitude: i64,
) -> bool {
    elapsed_in_unit(now_ms - created_s * 1000, unit) >= magnitude
}

/// Truncating division never grows an absolute value, and keeps sign.
proof fn lemma_div_trunc_bounds(a: int, d: int)
    requires
        d >= 1,
    ensures
        a >= 0 ==> 0 <= div_trunc(a, d) <= a,
        a < 0 ==> a <= div_trunc(a, d) <= 0,
{
    if a >= 0 {
        lemma_div_pos_is_pos(a, d);
        lemma_div_nonincreasing(a, d);
    } else {
        lemma_div_pos_is_pos(-a, d);
        lemma_div_nonincreasing(-a, d);
    }
}

/// Truncating division toward zero, over a comfortably bounded range.
fn div_trunc_i128(a: i128, d: u64) -> (r: i128)
    requires
        d >= 1,
        -0x1000_0000_0000_0000_0000_0000 < a < 0x1000_0000_0000_0000_0000_0000,
    ensures
        r == div_trunc(a as int, d as int),
        a >= 0 ==> 0 <= r <= a,
        a < 0 ==> a <= r <= 0,
{
    proof {
        lemma_div_trunc_bounds(a as int, d as int);
    }
    if a >= 0 {
        ((a as u128) / (d as u128)) as i128
    } else {
        -((((-a) as u128) / (d as u128)) as i128)
    }
}

/// Decides expiry from a parsed creation time, the current time, a unit and
/// a magnitude.
pub fn is_expired_at(
    created_s: i64,
    now_ms: i64,
    unit: CacherDateRemainingUnit,
    magnitude: i64,
) -> (r: bool)
    ensures
        r == expired_spec(created_s, now_ms, unit, magnitude),
{
    let elapsed: i128 = (now_ms as i128) - (created_s as i128) * 1000;
    let units: i128 = match unit {
        CacherDateRemainingUnit::Milliseconds => elapsed,
        CacherDateRemainingUnit::Seconds => div_trunc_i128(elapsed, 1000),
        CacherDateRemainingUnit::Minutes => div_trunc_i128(elapsed, 60000),
        CacherDateRemainingUnit::Hours => div_trunc_i128(elapsed, 3600000),
        CacherDateRemainingUnit::Days => div_trunc_i128(elapsed, 86400000),
        CacherDateRemainingUnit::Weeks => div_trunc_i128(elapsed, 604800000),
        CacherDateRemainingUnit::Months => div_trunc_i128(div_trunc_i128(elapsed, 604800000), 4),
        CacherDateRemainingUnit::Years => div_trunc_i128(div_trunc_i128(elapsed, 604800000), 12),
    };
    units >= (magnitude as i128)
}

/// Checks whether an envelope with the given creation timestamp, unit name
/// and magnitude is expired at `now_ms`.
///
/// Fails with `InvalidTimestamp` exactly when the timestamp does not match
/// the fixed format, and with `UnrecognizedUnit` exactly when the timestamp
/// parses but the unit name is not canonical.
pub fn check_if_expired(
    creation_time: &str,
    remaining_unit: &str,
    remaining_time: i64,
    now_ms: i64,
) -> (r: Result<bool, CacherError>)
    ensures
        (timestamp_seconds(creation_time@) is None) <==> r == Err::<bool, CacherError>(
            CacherError::InvalidTimestamp,
        ),
        timestamp_seconds(creation_time@) is Some && parse_unit_spec(remaining_unit@) is None
            <==> r == Err::<bool, CacherError>(CacherError::UnrecognizedUnit),
        timestamp_seconds(creation_time@) matches Some(created_s) ==> (parse_unit_spec(
            remaining_unit@,
        ) matches Some(unit) ==> r == Ok::<bool, CacherError>(
            expired_spec(created_s, now_ms, unit, remaining_time),
        )),
{
    let created_s = match parse_timestamp(creation_time) {
        Some(t) => t,
        None => {
            return Err(CacherError::InvalidTimestamp);
        },
    };
    let unit = match CacherDateRemainingUnit::from_str(remaining_unit) {
        Ok(u) => u,
        Err(_) => {
            return Err(CacherError::UnrecognizedUnit);
        },
    };
    Ok(is_expired_at(created_s, now_ms, unit, remaining_time))
}

/// With a magnitude of zero (or below), any envelope whose creation does not
/// lie in the future is expired at once: the elapsed time is non-negative in
/// every unit.
pub proof fn lemma_zero_ttl_expired(
    created_s: i64,
    now_ms: i64,
    unit: CacherDateRemainingUnit,
    magnitude: i64,
)
    requires
        now_ms >= created_s * 1000,
        magnitude <= 0,
    ensures
        expired_spec(created_s, now_ms, unit, magnitude),
{
    let e = now_ms - created_s * 1000;
    match unit {
        CacherDateRemainingUnit::Milliseconds => {},
        CacherDateRemainingUnit::Seconds => lemma_div_trunc_bounds(e, 1000),
        CacherDateRemainingUnit::Minutes => lemma_div_trunc_bounds(e, 60000),
        CacherDateRemainingUnit::Hours => lemma_div_trunc_bounds(e, 3600000),
        CacherDateRemainingUnit::Days => lemma_div_trunc_bounds(e, 86400000),
        CacherDateRemainingUnit::Weeks => lemma_div_trunc_bounds(e, 604800000),
        CacherDateRemainingUnit::Months => {
            lemma_div_trunc_bounds(e, 604800000);
            lemma_div_trunc_bounds(div_trunc(e, 604800000), 4);
        },
        CacherDateRemainingUnit::Years => {
            lemma_div_trunc_bounds(e, 604800000);
            lemma_div_trunc_bounds(div_trunc(e, 604800000), 12);
        },
    }
}

/// The elapsed count in any unit never exceeds the elapsed milliseconds:
/// every unit is at least a millisecond long.
pub proof fn lemma_elapsed_unit_bounds(elapsed_ms: int, unit: CacherDateRemainingUnit)
    requires
        elapsed_ms >= 0,
    ensures
        0 <= elapsed_in_unit(elapsed_ms, unit) <= elapsed_ms,
{
    match unit {
        CacherDateRemainingUnit::Milliseconds => {},
        CacherDateRemainingUnit::Seconds => lemma_div_trunc_bounds(elapsed_ms, 1000),
        CacherDateRemainingUnit::Minutes => lemma_div_trunc_bounds(elapsed_ms, 60000),
        CacherDateRemainingUnit::Hours => lemma_div_trunc_bounds(elapsed_ms, 3600000),
        CacherDateRemainingUnit::Days => lemma_div_trunc_bounds(elapsed_ms, 86400000),
        CacherDateRemainingUnit::Weeks => lemma_div_trunc_bounds(elapsed_ms, 604800000),
        CacherDateRemainingUnit::Months => {
            lemma_div_trunc_bounds(elapsed_ms, 604800000);
            lemma_div_trunc_bounds(div_trunc(elapsed_ms, 604800000), 4);
        },
        CacherDateRemainingUnit::Years => {
            lemma_div_trunc_bounds(elapsed_ms, 604800000);
            lemma_div_trunc_bounds(div_trunc(elapsed_ms, 604800000), 12);
        },
    }
}

/// An envelope whose magnitude exceeds the elapsed milliseconds is not yet
/// expired, whatever its unit: a fresh envelope with a large threshold stays
/// valid.
pub proof fn lemma_not_expired_before_threshold(
    created_s: i64,
    now_ms: i64,
    unit: CacherDateRemainingUnit,
    magnitude: i64,
)
    requires
        0 <= now_ms - created_s * 1000 < magnitude,
    ensures
        !expired_spec(created_s, now_ms, unit, magnitude),
{
    lemma_elapsed_unit_bounds(now_ms - created_s * 1000, unit);
}

} // verus!
