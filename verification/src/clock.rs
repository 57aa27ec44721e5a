//! Reading the clock and writing times as compact UTC stamps.

use vstd::prelude::*;
use crate::datetime::{MAX_INSTANT, MIN_INSTANT};

verus! {

/// The system clock's reading, `std::time::SystemTime`.
#[verifier::external_type_specification]
#[verifier::external_body]
pub struct ExSystemTime(std::time::SystemTime);

/// How far a clock reading lies before the epoch,
/// `std::time::SystemTimeError`.
#[verifier::external_type_specification]
#[verifier::external_body]
pub struct ExSystemTimeError(std::time::SystemTimeError);

/// `SystemTime::now()`. What it reads depends on the clock, so nothing is
/// promised of it.
#[verifier::external_body]
fn system_now() -> (r: std::time::SystemTime) {
    std::time::SystemTime::now()
}

/// `t.duration_since(UNIX_EPOCH)`: the time since the epoch, or an error
/// when the reading lies before it. The reading is opaque here, so nothing
/// is promised of which it is.
#[verifier::external_body]
fn since_epoch(t: &std::time::SystemTime) -> (r: Result<std::time::Duration, std::time::SystemTimeError>) {
    t.duration_since(std::time::UNIX_EPOCH)
}

/// `SystemTimeError::duration`: how far before the epoch the reading lies.
#[verifier::external_body]
fn before_epoch(e: &std::time::SystemTimeError) -> (r: std::time::Duration) {
    e.duration()
}

/// `Duration::as_secs`: the whole seconds of a duration.
#[verifier::external_body]
fn whole_secs(d: &std::time::Duration) -> (r: u64) {
    d.as_secs()
}

/// `Duration::subsec_nanos`: the nanoseconds past the whole seconds, which
/// std documents as always less than one billion.
#[verifier::external_body]
fn subsec_nanos(d: &std::time::Duration) -> (r: u32)
    ensures
        r < 1_000_000_000,
{
    d.subsec_nanos()
}

/// Seconds since the Unix epoch, now, rounded down: negative for a clock
/// that reads before 1970, and held to the range of `i64`. The value depends
/// on the clock; the clock is read with `SystemTime`, which does not fail.
pub(crate) fn now_unix() -> (r: i64) {
    let t = system_now();
    match since_epoch(&t) {
        Ok(d) => {
            let s = whole_secs(&d);
            if s > 9_223_372_036_854_775_807u64 { i64::MAX } else { s as i64 }
        },
        Err(e) => {
            let d = before_epoch(&e);
            let s = whole_secs(&d);
            let n = subsec_nanos(&d);
            if s >= 9_223_372_036_854_775_807u64 {
                i64::MIN
            } else if n > 0 {
                -(s as i64) - 1
            } else {
                -(s as i64)
            }
        },
    }
}

/// The sub-second nanoseconds of the clock, now, to seed the slug suffix;
/// `0xDEAD_BEEF` when the clock reads before the epoch.
pub(crate) fn clock_seed() -> (r: u32) {
    let t = system_now();
    match since_epoch(&t) {
        Ok(d) => subsec_nanos(&d),
        Err(_) => 0xDEAD_BEEFu32,
    }
}

/// The chrono patterns this library writes UTC times with: compact stamps
/// for slugs, and the dates and times of the reports.
pub open spec fn time_pattern(fmt: Seq<char>) -> bool {
    ||| fmt == "%Y%m%d-%H%M%S"@
    ||| fmt == "%Y-%m-%d"@
    ||| fmt == "%Y-%m-%d %H:%M:%S"@
    ||| fmt == "%Y-%m-%d %H:%M:%S UTC"@
}

/// Name for what `chrono` writes for the UTC time `ts` (seconds since the
/// epoch) with the pattern `fmt`, or `None` where `DateTime::from_timestamp`
/// finds `ts` out of its range.
pub uninterp spec fn utc_format(ts: i64, fmt: Seq<char>) -> Option<Seq<char>>;

/// `DateTime::<Utc>::from_timestamp(ts, 0)`, then `format(fmt)` written to a
/// string. The result is what [`utc_format`] names; it is there exactly
/// when `ts` lies in chrono's calendar, from [`MIN_INSTANT`] to
/// [`MAX_INSTANT`]. The patterns admitted are all well-formed, so writing
/// them does not fail.
#[verifier::external_body]
pub(crate) fn utc_format_of(ts: i64, fmt: &str) -> (r: Option<String>)
    requires
        time_pattern(fmt@),
    ensures
        r is Some <==> MIN_INSTANT <= ts <= MAX_INSTANT,
        match r {
            Some(s) => utc_format(ts, fmt@) == Some(s@),
            None => utc_format(ts, fmt@) is None,
        },
{
    match chrono::DateTime::from_timestamp(ts, 0) {
        Some(d) => Some(d.format(fmt).to_string()),
        None => None,
    }
}

/// The compact UTC stamp of `ts`, `%Y%m%d-%H%M%S`, or `None` beyond chrono's
/// range.
pub open spec fn utc_stamp(ts: i64) -> Option<Seq<char>> {
    utc_format(ts, "%Y%m%d-%H%M%S"@)
}

/// The compact UTC stamp of `ts`, as [`utc_stamp`] states.
pub(crate) fn utc_stamp_of(ts: i64) -> (r: Option<String>)
    ensures
        match r {
            Some(s) => utc_stamp(ts) == Some(s@),
            None => utc_stamp(ts) is None,
        },
{
    utc_format_of(ts, "%Y%m%d-%H%M%S")
}

/// Name for what `chrono` writes for the UTC time `ts` with
/// `DateTime::to_rfc3339`, or `None` where `DateTime::from_timestamp` finds
/// `ts` out of its range.
pub uninterp spec fn utc_rfc3339(ts: i64) -> Option<Seq<char>>;

/// `DateTime::<Utc>::from_timestamp(ts, 0)`, then `to_rfc3339()`. The
/// result is what [`utc_rfc3339`] names; it is there exactly when `ts`
/// lies in chrono's calendar, from [`MIN_INSTANT`] to [`MAX_INSTANT`].
#[verifier::external_body]
pub(crate) fn utc_rfc3339_of(ts: i64) -> (r: Option<String>)
    ensures
        r is Some <==> MIN_INSTANT <= ts <= MAX_INSTANT,
        match r {
            Some(s) => utc_rfc3339(ts) == Some(s@),
            None => utc_rfc3339(ts) is None,
        },
{
    match chrono::DateTime::from_timestamp(ts, 0) {
        Some(d) => Some(d.to_rfc3339()),
        None => None,
    }
}

} // verus!
