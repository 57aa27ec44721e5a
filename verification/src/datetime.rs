//! Reading the flexible date and time arguments of the command line.
//!
//! Accepted forms, tried in this order on the trimmed input:
//!
//! | Input example | Meaning |
//! |---|---|
//! | `2026-04-01T14:00:00`, `2026-04-01T14:00` | local date and time |
//! | `2026-04-01 14:00:00`, `2026-04-01 14:00` | local date and time |
//! | `2026-04-01` | local midnight of that date |
//! | `in 1 hour`, `in 30 minutes`, `in 2 days` | relative to now |
//! | `tomorrow`, `tomorrow 09:00`, `tomorrow 9am` | next day (09:00 by default) |
//! | `today`, `today 5pm` | now, or today at that time |
//! | `friday`, `friday 17:00` | the coming weekday (09:00 by default) |
//! | `9am`, `14:30` | today at that time |
//!
//! [`classify_datetime`] decides which form the text has; [`parse_datetime`]
//! turns it into a moment, given the clock's reading and the local date and
//! weekday of that reading; [`place_moment`] gives the instant once the time
//! zone has placed a local moment. The program reads the clock and the time
//! zone and hands their answers in.

use vstd::prelude::*;
use chrono::{Datelike, Timelike};
use crate::domain::CivilDate;
use crate::numbers::{i64_text, parse_i64, parse_u32, u32_text};
use crate::text::{
    chars_of, decimal, digit_char, lowercase, push_decimal, push_str, split_words, str_eq, string_of, to_lowercase,
    trim_chars, trimmed, words,
};

verus! {

/// A time of day.
#[derive(Debug, Clone, Copy, PartialEq, Eq, Structural)]
pub struct ClockTime {
    /// Hour, 0 to 23.
    pub hour: u32,
    /// Minute, 0 to 59.
    pub minute: u32,
    /// Second.
    pub second: u32,
}

/// The moment a date-time argument names, before the time zone and the
/// clock are consulted.
#[derive(Debug, Clone, Copy, PartialEq, Eq, Structural)]
pub enum When {
    /// A local date and time.
    At { date: CivilDate, time: ClockTime },
    /// Tomorrow, local, at the time.
    Tomorrow { time: ClockTime },
    /// Today, local, at the time.
    Today { time: ClockTime },
    /// Right now.
    Now,
    /// The next `weekday` (0 is Monday) strictly after today, at the time.
    Next { weekday: u32, time: ClockTime },
    /// Now plus `seconds`.
    InSeconds { seconds: i64 },
}

/// Name for what `NaiveDateTime::parse_from_str(s, fmt)` gives, as date and
/// time of day.
pub uninterp spec fn chrono_datetime(s: Seq<char>, fmt: Seq<char>) -> Option<(CivilDate, ClockTime)>;

/// Name for what `NaiveDate::parse_from_str(s, fmt)` gives: the date, or
/// the text chrono shows for its parse error.
pub uninterp spec fn chrono_date(s: Seq<char>, fmt: Seq<char>) -> Result<CivilDate, Seq<char>>;

/// Name for what `NaiveTime::parse_from_str(s, fmt)` gives.
pub uninterp spec fn chrono_time(s: Seq<char>, fmt: Seq<char>) -> Option<ClockTime>;

/// `chrono::NaiveDateTime::parse_from_str(s, fmt)`, read back as year,
/// month, day, hour, minute and second; `None` on a parse error. The result
/// is what [`chrono_datetime`] names.
#[verifier::external_body]
fn parse_naive_datetime(s: &str, fmt: &str) -> (r: Option<(CivilDate, ClockTime)>)
    ensures
        r == chrono_datetime(s@, fmt@),
{
    match chrono::NaiveDateTime::parse_from_str(s, fmt) {
        Ok(d) => Some((
            CivilDate { year: d.year(), month: d.month(), day: d.day() },
            ClockTime { hour: d.hour(), minute: d.minute(), second: d.second() },
        )),
        Err(_) => None,
    }
}

/// `chrono::NaiveDate::parse_from_str(s, fmt)`, read back as year, month
/// and day, or the parse error written with `to_string`. The result is what
/// [`chrono_date`] names.
#[verifier::external_body]
pub(crate) fn parse_naive_date(s: &str, fmt: &str) -> (r: Result<CivilDate, String>)
    ensures
        match r {
            Ok(d) => chrono_date(s@, fmt@) == Ok::<CivilDate, Seq<char>>(d),
            Err(e) => chrono_date(s@, fmt@) == Err::<CivilDate, Seq<char>>(e@),
        },
{
    match chrono::NaiveDate::parse_from_str(s, fmt) {
        Ok(d) => Ok(CivilDate { year: d.year(), month: d.month(), day: d.day() }),
        Err(e) => Err(e.to_string()),
    }
}

/// `chrono::NaiveTime::parse_from_str(s, fmt)`, read back as hour, minute
/// and second; `None` on a parse error. The result is what [`chrono_time`]
/// names.
#[verifier::external_body]
fn parse_naive_time(s: &str, fmt: &str) -> (r: Option<ClockTime>)
    ensures
        r == chrono_time(s@, fmt@),
{
    match chrono::NaiveTime::parse_from_str(s, fmt) {
        Ok(t) => Some(ClockTime { hour: t.hour(), minute: t.minute(), second: t.second() }),
        Err(_) => None,
    }
}

/// The first year chrono's calendar holds.
pub const MIN_YEAR: i32 = -262143;

/// The last year chrono's calendar holds.
pub const MAX_YEAR: i32 = 262142;

/// Whether `y` is a leap year of the proleptic Gregorian calendar.
pub open spec fn leap_year(y: int) -> bool {
    y % 4 == 0 && (y % 100 != 0 || y % 400 == 0)
}

/// The number of days in month `m` of year `y`.
pub open spec fn month_days(y: int, m: int) -> int {
    if m == 2 {
        if leap_year(y) { 29 } else { 28 }
    } else if m == 4 || m == 6 || m == 9 || m == 11 {
        30
    } else {
        31
    }
}

/// Whether `d` is a date of chrono's calendar.
pub open spec fn valid_date(d: CivilDate) -> bool {
    &&& MIN_YEAR <= d.year <= MAX_YEAR
    &&& 1 <= d.month <= 12
    &&& 1 <= d.day <= month_days(d.year as int, d.month as int)
}

/// The day after `d`.
pub open spec fn next_day(d: CivilDate) -> CivilDate {
    if (d.day as int) < month_days(d.year as int, d.month as int) {
        CivilDate { year: d.year, month: d.month, day: (d.day + 1) as u32 }
    } else if d.month < 12 {
        CivilDate { year: d.year, month: (d.month + 1) as u32, day: 1 }
    } else {
        CivilDate { year: (d.year + 1) as i32, month: 1, day: 1 }
    }
}

/// The day before `d`.
pub open spec fn prev_day(d: CivilDate) -> CivilDate {
    if d.day > 1 {
        CivilDate { year: d.year, month: d.month, day: (d.day - 1) as u32 }
    } else if d.month > 1 {
        CivilDate {
            year: d.year,
            month: (d.month - 1) as u32,
            day: month_days(d.year as int, d.month - 1) as u32,
        }
    } else {
        CivilDate { year: (d.year - 1) as i32, month: 12, day: 31 }
    }
}

/// The date `k` days after `d` (before it for negative `k`).
pub open spec fn shift_days(d: CivilDate, k: int) -> CivilDate
    decreases (if k < 0 { -k } else { k }),
{
    if k > 0 {
        shift_days(next_day(d), k - 1)
    } else if k < 0 {
        shift_days(prev_day(d), k + 1)
    } else {
        d
    }
}

/// The date `days` days after `date`, as chrono's `NaiveDate::from_ymd_opt`
/// and `checked_add_signed` give it: `None` where `date` is not a date of
/// its calendar or the result falls outside it.
pub open spec fn civil_add_days(date: CivilDate, days: i64) -> Option<CivilDate> {
    if valid_date(date) && valid_date(shift_days(date, days as int)) {
        Some(shift_days(date, days as int))
    } else {
        None
    }
}

/// Whether `y` is a leap year, as [`leap_year`] states.
fn is_leap(y: i32) -> (b: bool)
    ensures
        b == leap_year(y as int),
{
    let u: i64 = y as i64 + 2_400_000_000;
    assert(leap_year(y as int) == leap_year(u as int)) by (nonlinear_arith)
        requires
            u == y + 2_400_000_000,
    {
    }
    u % 4 == 0 && (u % 100 != 0 || u % 400 == 0)
}

/// The number of days in month `m` of year `y`.
fn days_in_month(y: i32, m: u32) -> (r: u32)
    ensures
        r == month_days(y as int, m as int),
{
    if m == 2 {
        if is_leap(y) {
            29
        } else {
            28
        }
    } else if m == 4 || m == 6 || m == 9 || m == 11 {
        30
    } else {
        31
    }
}

/// The date `days` days after `date`, as [`civil_add_days`] states.
pub(crate) fn add_days(date: CivilDate, days: i64) -> (r: Option<CivilDate>)
    requires
        -7 <= days <= 7,
    ensures
        r == civil_add_days(date, days),
{
    if date.year < MIN_YEAR || date.year > MAX_YEAR || date.month < 1 || date.month > 12 || date.day < 1
        || date.day > days_in_month(date.year, date.month) {
        return None;
    }
    let mut d = date;
    let mut k: i64 = days;
    while k != 0
        invariant
            -7 <= k <= 7,
            -7 <= days <= 7,
            (days >= 0 ==> 0 <= k <= days) && (days <= 0 ==> days <= k <= 0),
            shift_days(d, k as int) == shift_days(date, days as int),
            MIN_YEAR <= date.year <= MAX_YEAR,
            d.year - date.year <= (if days >= 0 { days - k } else { k - days }),
            date.year - d.year <= (if days >= 0 { days - k } else { k - days }),
            1 <= d.month <= 12,
            1 <= d.day <= month_days(d.year as int, d.month as int),
        decreases (if k < 0 { -(k as int) } else { k as int }),
    {
        let ghost old_d = d;
        if k > 0 {
            let dm = days_in_month(d.year, d.month);
            if d.day < dm {
                d = CivilDate { year: d.year, month: d.month, day: d.day + 1 };
            } else if d.month < 12 {
                d = CivilDate { year: d.year, month: d.month + 1, day: 1 };
            } else {
                d = CivilDate { year: d.year + 1, month: 1, day: 1 };
            }
            assert(d == next_day(old_d));
            k = k - 1;
        } else {
            if d.day > 1 {
                d = CivilDate { year: d.year, month: d.month, day: d.day - 1 };
            } else if d.month > 1 {
                let pm = days_in_month(d.year, d.month - 1);
                d = CivilDate { year: d.year, month: d.month - 1, day: pm };
            } else {
                d = CivilDate { year: d.year - 1, month: 12, day: 31 };
            }
            assert(d == prev_day(old_d));
            k = k + 1;
        }
    }
    if d.year < MIN_YEAR || d.year > MAX_YEAR {
        None
    } else {
        Some(d)
    }
}

/// The earliest instant chrono's calendar holds, the start of January 1
/// of the year -262143.
pub const MIN_INSTANT: i64 = -8_334_601_228_800;

/// The latest whole second chrono's calendar holds, the end of December 31
/// of the year 262142.
pub const MAX_INSTANT: i64 = 8_210_266_876_799;

/// The instant `seconds` after `ts`, where both lie in chrono's calendar.
pub open spec fn utc_plus(ts: i64, seconds: i64) -> Option<i64> {
    if MIN_INSTANT <= ts <= MAX_INSTANT && MIN_INSTANT <= ts + seconds <= MAX_INSTANT {
        Some((ts + seconds) as i64)
    } else {
        None
    }
}

/// The instant `seconds` after `ts`, as chrono's `DateTime::<Utc>` adds a
/// duration: `None` where either lies beyond its calendar.
pub fn add_seconds(ts: i64, seconds: i64) -> (r: Option<i64>)
    ensures
        r == utc_plus(ts, seconds),
{
    if ts < MIN_INSTANT || ts > MAX_INSTANT {
        None
    } else if seconds > MAX_INSTANT - ts || seconds < MIN_INSTANT - ts {
        None
    } else {
        Some(ts + seconds)
    }
}

/// The largest number of whole seconds a chrono duration holds.
pub const MAX_DELTA_SECS: i64 = 9_223_372_036_854_775;

/// Nine in the morning.
pub open spec fn nine_am() -> ClockTime {
    ClockTime { hour: 9, minute: 0, second: 0 }
}

/// `s` starts with `p`.
pub open spec fn starts(s: Seq<char>, p: Seq<char>) -> bool {
    p.len() <= s.len() && s.take(p.len() as int) == p
}

/// `s` ends with `p`.
pub open spec fn ends(s: Seq<char>, p: Seq<char>) -> bool {
    p.len() <= s.len() && s.skip(s.len() - p.len()) == p
}

/// `s` without its ASCII spaces.
pub open spec fn without_spaces(s: Seq<char>) -> Seq<char> {
    s.filter(|c: char| c != ' ')
}

/// Position of the first `c` in `s` from `k`, or -1.
pub open spec fn find_char(s: Seq<char>, c: char, k: int) -> int
    decreases s.len() - k,
{
    if k < 0 || k >= s.len() {
        -1
    } else if s[k] == c {
        k
    } else {
        find_char(s, c, k + 1)
    }
}

/// The message for text that is not a 12-hour time.
pub open spec fn quoted(prefix: Seq<char>, u: Seq<char>) -> Seq<char> {
    prefix + "'"@ + u + "'"@
}

/// A 12-hour time such as `9am`, `9:30pm` or `12am`, without spaces.
pub open spec fn twelve_hour(u: Seq<char>) -> Result<ClockTime, Seq<char>> {
    if !ends(u, "am"@) && !ends(u, "pm"@) {
        Err(quoted("invalid time "@, u))
    } else {
        let pm = !ends(u, "am"@);
        let core = u.take(u.len() - 2);
        let colon = find_char(core, ':', 0);
        let hour = if colon >= 0 { u32_text(core.take(colon)) } else { u32_text(core) };
        let minute = if colon >= 0 { u32_text(core.skip(colon + 1)) } else { Some(0u32) };
        if hour is None {
            Err(quoted("invalid hour in "@, u))
        } else if minute is None {
            Err(quoted("invalid minute in "@, u))
        } else if !(1 <= hour->0 <= 12) || minute->0 > 59 {
            Err(quoted("invalid 12-hour time "@, u))
        } else {
            let h = hour->0;
            let h24 = if h == 12 { if pm { 12u32 } else { 0u32 } } else if pm { (h + 12) as u32 } else { h };
            Ok(ClockTime { hour: h24, minute: minute->0, second: 0 })
        }
    }
}

/// A 12-hour time reads as a time of day on the right half of the day:
/// an `am` time is before noon and a `pm` time from noon on, at a whole
/// minute, with the hour kept modulo twelve (`12am` is midnight, `12pm`
/// noon).
pub proof fn law_twelve_hour_halves(u: Seq<char>, t: ClockTime)
    requires
        twelve_hour(u) == Ok::<ClockTime, Seq<char>>(t),
    ensures
        t.hour < 24,
        t.minute < 60,
        t.second == 0,
        ends(u, "am"@) ==> t.hour < 12,
        ends(u, "pm"@) ==> t.hour >= 12,
{
    reveal_strlit("am");
    reveal_strlit("pm");
    if ends(u, "pm"@) {
        assert(u.skip(u.len() - 2)[0] == 'p');
        assert(!ends(u, "am"@)) by {
            if ends(u, "am"@) {
                assert(u.skip(u.len() - 2)[0] == 'a');
            }
        }
    }
}

/// A time of day: `HH:MM:SS` or `HH:MM` as chrono reads them, else a
/// 12-hour time; case and spaces are ignored.
pub open spec fn clock_time(x: Seq<char>) -> Result<ClockTime, Seq<char>> {
    let u = without_spaces(lowercase(trimmed(x)));
    if u.len() == 0 {
        Err("empty time"@)
    } else if chrono_time(u, "%H:%M:%S"@) is Some {
        Ok(chrono_time(u, "%H:%M:%S"@)->0)
    } else if chrono_time(u, "%H:%M"@) is Some {
        Ok(chrono_time(u, "%H:%M"@)->0)
    } else {
        twelve_hour(u)
    }
}

/// Seconds per unit of a relative duration.
pub open spec fn unit_seconds(unit: Seq<char>) -> Option<int> {
    if unit == "hour"@ || unit == "hours"@ || unit == "hr"@ || unit == "hrs"@ || unit == "h"@ {
        Some(3600)
    } else if unit == "minute"@ || unit == "minutes"@ || unit == "min"@ || unit == "mins"@
        || unit == "m"@ {
        Some(60)
    } else if unit == "day"@ || unit == "days"@ || unit == "d"@ {
        Some(86400)
    } else {
        None
    }
}

/// The seconds a relative duration such as `30 minutes` stands for.
pub open spec fn relative_seconds(r: Seq<char>) -> Result<i64, Seq<char>> {
    let p = words(r);
    if p.len() != 2 {
        Err("invalid relative duration '"@ + r + "'; expected 'N hour(s)|minute(s)'"@)
    } else if i64_text(p[0]) is None {
        Err(quoted("invalid number in relative duration "@, r))
    } else if i64_text(p[0])->0 < 0 {
        Err("relative duration must be non-negative"@)
    } else if unit_seconds(p[1]) is None {
        Err("unknown duration unit '"@ + p[1] + "'; use hours, minutes, or days"@)
    } else if i64_text(p[0])->0 * unit_seconds(p[1])->0 > MAX_DELTA_SECS {
        Err("relative duration '"@ + r + "' is out of range"@)
    } else {
        Ok((i64_text(p[0])->0 * unit_seconds(p[1])->0) as i64)
    }
}

/// The units a relative duration accepts: every spelling of a minute is
/// sixty seconds, every spelling of an hour is 3600 and every spelling of a
/// day is 86400, each of these only for its own spellings, and any other
/// word is no unit.
pub proof fn law_duration_units(u: Seq<char>)
    ensures
        unit_seconds(u) == Some(60int)
            <==> (u == "minute"@ || u == "minutes"@ || u == "min"@ || u == "mins"@ || u == "m"@),
        unit_seconds(u) == Some(3600int)
            <==> (u == "hour"@ || u == "hours"@ || u == "hr"@ || u == "hrs"@ || u == "h"@),
        unit_seconds(u) == Some(86400int) <==> (u == "day"@ || u == "days"@ || u == "d"@),
        unit_seconds(u) is None <==> !(u == "minute"@ || u == "minutes"@ || u == "min"@ || u == "mins"@ || u == "m"@
            || u == "hour"@ || u == "hours"@ || u == "hr"@ || u == "hrs"@ || u == "h"@ || u == "day"@ || u
            == "days"@ || u == "d"@),
{
    reveal_strlit("minute");
    reveal_strlit("minutes");
    reveal_strlit("min");
    reveal_strlit("mins");
    reveal_strlit("m");
    reveal_strlit("hour");
    reveal_strlit("hours");
    reveal_strlit("hr");
    reveal_strlit("hrs");
    reveal_strlit("h");
    reveal_strlit("day");
    reveal_strlit("days");
    reveal_strlit("d");
    assert("minute"@[0] == 'm' && "minutes"@[0] == 'm' && "min"@[0] == 'm' && "mins"@[0] == 'm' && "m"@[0] == 'm');
    assert("hour"@[0] == 'h' && "hours"@[0] == 'h' && "hr"@[0] == 'h' && "hrs"@[0] == 'h' && "h"@[0] == 'h');
    assert("day"@[0] == 'd' && "days"@[0] == 'd' && "d"@[0] == 'd');
}

/// `in N <unit>` counts N of the unit from now: for a text made of a
/// non-negative whole number `n` and a unit word, within range, the
/// relative duration is `n` minutes (`n * 60` seconds) for a minute
/// spelling, `n` hours for an hour spelling and `n` days for a day spelling.
pub proof fn law_relative_duration_counts_units(r: Seq<char>, n: i64)
    requires
        words(r).len() == 2,
        i64_text(words(r)[0]) == Some(n),
        n >= 0,
        n * 86400 <= MAX_DELTA_SECS,
    ensures
        (words(r)[1] == "minute"@ || words(r)[1] == "minutes"@ || words(r)[1] == "min"@ || words(r)[1] == "mins"@
            || words(r)[1] == "m"@) ==> relative_seconds(r) == Ok::<i64, Seq<char>>((n * 60) as i64),
        (words(r)[1] == "hour"@ || words(r)[1] == "hours"@ || words(r)[1] == "hr"@ || words(r)[1] == "hrs"@
            || words(r)[1] == "h"@) ==> relative_seconds(r) == Ok::<i64, Seq<char>>((n * 3600) as i64),
        (words(r)[1] == "day"@ || words(r)[1] == "days"@ || words(r)[1] == "d"@) ==> relative_seconds(r) == Ok::<
            i64,
            Seq<char>,
        >((n * 86400) as i64),
{
    law_duration_units(words(r)[1]);
}

/// Which weekday name `l` starts with, counted from Monday as 0.
pub open spec fn weekday_prefix(l: Seq<char>) -> Option<(u32, nat)> {
    if starts(l, "monday"@) { Some((0u32, 6nat)) }
    else if starts(l, "tuesday"@) { Some((1u32, 7nat)) }
    else if starts(l, "wednesday"@) { Some((2u32, 9nat)) }
    else if starts(l, "thursday"@) { Some((3u32, 8nat)) }
    else if starts(l, "friday"@) { Some((4u32, 6nat)) }
    else if starts(l, "saturday"@) { Some((5u32, 8nat)) }
    else if starts(l, "sunday"@) { Some((6u32, 6nat)) }
    else { None }
}

/// A day's time: nine in the morning when `rest` is empty, else the time
/// `rest` names.
pub open spec fn day_time(rest: Seq<char>) -> Result<ClockTime, Seq<char>> {
    if rest.len() == 0 { Ok(nine_am()) } else { clock_time(rest) }
}

/// The message for text in none of the accepted forms.
pub open spec fn cannot_parse(t: Seq<char>) -> Seq<char> {
    "cannot parse datetime '"@ + t
        + "'; expected formats: '2026-04-01T14:00', '2026-04-01 14:00', 'tomorrow 09:00', 'tomorrow 9am', 'today 5pm', 'friday 17:00', 'in 1 hour', 'in 30 minutes'"@
}

/// Which moment the argument `s` names, or why it names none.
pub open spec fn when_of(s: Seq<char>) -> Result<When, Seq<char>> {
    let t = trimmed(s);
    if chrono_datetime(t, "%Y-%m-%dT%H:%M:%S"@) is Some {
        let x = chrono_datetime(t, "%Y-%m-%dT%H:%M:%S"@)->0;
        Ok(When::At { date: x.0, time: x.1 })
    } else if chrono_datetime(t, "%Y-%m-%dT%H:%M"@) is Some {
        let x = chrono_datetime(t, "%Y-%m-%dT%H:%M"@)->0;
        Ok(When::At { date: x.0, time: x.1 })
    } else if chrono_datetime(t, "%Y-%m-%d %H:%M:%S"@) is Some {
        let x = chrono_datetime(t, "%Y-%m-%d %H:%M:%S"@)->0;
        Ok(When::At { date: x.0, time: x.1 })
    } else if chrono_datetime(t, "%Y-%m-%d %H:%M"@) is Some {
        let x = chrono_datetime(t, "%Y-%m-%d %H:%M"@)->0;
        Ok(When::At { date: x.0, time: x.1 })
    } else if chrono_date(t, "%Y-%m-%d"@) is Ok {
        Ok(When::At {
            date: chrono_date(t, "%Y-%m-%d"@)->Ok_0,
            time: ClockTime { hour: 0, minute: 0, second: 0 },
        })
    } else {
        let l = lowercase(t);
        if starts(l, "in "@) {
            match relative_seconds(trimmed(l.skip(3))) {
                Ok(n) => Ok(When::InSeconds { seconds: n }),
                Err(e) => Err(e),
            }
        } else if starts(l, "tomorrow"@) {
            match day_time(trimmed(l.skip(8))) {
                Ok(c) => Ok(When::Tomorrow { time: c }),
                Err(e) => Err(e),
            }
        } else if starts(l, "today"@) {
            let rest = trimmed(l.skip(5));
            if rest.len() == 0 {
                Ok(When::Now)
            } else {
                match clock_time(rest) {
                    Ok(c) => Ok(When::Today { time: c }),
                    Err(e) => Err(e),
                }
            }
        } else if weekday_prefix(l) is Some {
            let w = weekday_prefix(l)->0;
            match day_time(trimmed(l.skip(w.1 as int))) {
                Ok(c) => Ok(When::Next { weekday: w.0, time: c }),
                Err(e) => Err(e),
            }
        } else {
            match clock_time(l) {
                Ok(c) => Ok(When::Today { time: c }),
                Err(_) => Err(cannot_parse(t)),
            }
        }
    }
}

/// Days from a day with weekday `today` to the next day with weekday
/// `target` (both counted from Monday as 0): between one and seven.
pub open spec fn days_ahead(target: u32, today: u32) -> int {
    let diff = target - today;
    if diff <= 0 { diff + 7 } else { diff }
}

/// A weekday named by its name is the next one strictly after today: for
/// weekdays counted from Monday as 0, the days ahead are one to seven and
/// land on the weekday named, seven when it is today's.
pub proof fn law_next_weekday_lands_on_it(target: u32, today: u32)
    requires
        target < 7,
        today < 7,
    ensures
        1 <= days_ahead(target, today) <= 7,
        (today + days_ahead(target, today)) % 7 == target as int,
        target == today ==> days_ahead(target, today) == 7,
{
}

/// Whether `s` starts with `p`.
fn starts_with(s: &Vec<char>, p: &str) -> (r: bool)
    ensures
        r == starts(s@, p@),
{
    let pc = chars_of(p);
    if pc.len() > s.len() {
        return false;
    }
    let mut i: usize = 0;
    while i < pc.len()
        invariant
            pc@ == p@,
            pc.len() <= s.len(),
            0 <= i <= pc.len(),
            forall|j: int| 0 <= j < i ==> s@[j] == pc@[j],
        decreases pc.len() - i,
    {
        if s[i] != pc[i] {
            assert(s@.take(p@.len() as int)[i as int] != p@[i as int]);
            return false;
        }
        i = i + 1;
    }
    assert(s@.take(p@.len() as int) =~= p@);
    true
}

/// Whether `s` ends with `p`.
fn ends_with(s: &Vec<char>, p: &str) -> (r: bool)
    ensures
        r == ends(s@, p@),
{
    let pc = chars_of(p);
    if pc.len() > s.len() {
        return false;
    }
    let off = s.len() - pc.len();
    let mut i: usize = 0;
    while i < pc.len()
        invariant
            pc@ == p@,
            pc.len() <= s.len(),
            off == s.len() - pc.len(),
            0 <= i <= pc.len(),
            forall|j: int| 0 <= j < i ==> s@[off + j] == pc@[j],
        decreases pc.len() - i,
    {
        if s[off + i] != pc[i] {
            assert(s@.skip(off as int)[i as int] != p@[i as int]);
            return false;
        }
        i = i + 1;
    }
    assert(s@.skip(off as int) =~= p@);
    true
}

/// The characters of `s` from `k` on, trimmed.
fn trimmed_tail(s: &Vec<char>, k: usize) -> (r: String)
    requires
        k <= s.len(),
    ensures
        r@ == trimmed(s@.skip(k as int)),
{
    let mut tail: Vec<char> = Vec::new();
    let mut i: usize = k;
    while i < s.len()
        invariant
            k <= i <= s.len(),
            tail@ == s@.subrange(k as int, i as int),
        decreases s.len() - i,
    {
        tail.push(s[i]);
        i = i + 1;
        assert(s@.subrange(k as int, i as int) =~= s@.subrange(k as int, i - 1).push(s@[i - 1]));
    }
    assert(tail@ =~= s@.skip(k as int));
    let t = string_of(&tail);
    string_of(&trim_chars(t.as_str()))
}

/// The characters of `s` before `k`, as a string.
fn head(s: &Vec<char>, k: usize) -> (r: String)
    requires
        k <= s.len(),
    ensures
        r@ == s@.take(k as int),
{
    let mut out: Vec<char> = Vec::new();
    let mut i: usize = 0;
    while i < k
        invariant
            0 <= i <= k,
            k <= s.len(),
            out@ == s@.take(i as int),
        decreases k - i,
    {
        out.push(s[i]);
        i = i + 1;
        assert(s@.take(i as int) =~= s@.take(i - 1).push(s@[i - 1]));
    }
    string_of(&out)
}

/// The characters of `s` from `k` on, as a string.
fn tail(s: &Vec<char>, k: usize) -> (r: String)
    requires
        k <= s.len(),
    ensures
        r@ == s@.skip(k as int),
{
    let mut out: Vec<char> = Vec::new();
    let mut i: usize = k;
    while i < s.len()
        invariant
            k <= i <= s.len(),
            out@ == s@.subrange(k as int, i as int),
        decreases s.len() - i,
    {
        out.push(s[i]);
        i = i + 1;
        assert(s@.subrange(k as int, i as int) =~= s@.subrange(k as int, i - 1).push(s@[i - 1]));
    }
    assert(out@ =~= s@.skip(k as int));
    string_of(&out)
}

/// `prefix`, then `u` in single quotes.
fn quoted_string(prefix: &str, u: &str) -> (r: String)
    ensures
        r@ == quoted(prefix@, u@),
{
    let mut out: Vec<char> = Vec::new();
    push_str(&mut out, prefix);
    push_str(&mut out, "'");
    push_str(&mut out, u);
    push_str(&mut out, "'");
    assert(out@ =~= quoted(prefix@, u@));
    string_of(&out)
}

/// Reads a 12-hour time such as `9am`, `9:30pm` or `12am` (no spaces):
/// `12am` is midnight, `12pm` noon, and `1pm` to `11pm` add twelve hours.
pub fn twelve_hour_time(u: &str) -> (r: Result<ClockTime, String>)
    ensures
        match r {
            Ok(c) => twelve_hour(u@) == Ok::<ClockTime, Seq<char>>(c),
            Err(e) => twelve_hour(u@) == Err::<ClockTime, Seq<char>>(e@),
        },
{
    let cs = chars_of(u);
    proof {
        reveal_strlit("am");
        reveal_strlit("pm");
    }
    let is_am = ends_with(&cs, "am");
    let is_pm = ends_with(&cs, "pm");
    if !is_am && !is_pm {
        return Err(quoted_string("invalid time ", u));
    }
    let pm = !is_am;
    let core_s = head(&cs, cs.len() - 2);
    let core = chars_of(core_s.as_str());
    let mut colon: usize = 0;
    while colon < core.len() && core[colon] != ':'
        invariant
            0 <= colon <= core.len(),
            find_char(core@, ':', 0) == find_char(core@, ':', colon as int),
        decreases core.len() - colon,
    {
        colon = colon + 1;
    }
    let has_colon = colon < core.len();
    proof {
        if has_colon {
            assert(find_char(core@, ':', 0) == colon);
        } else {
            assert(find_char(core@, ':', 0) == -1);
        }
    }
    let hour = if has_colon { parse_u32(head(&core, colon).as_str()) } else { parse_u32(core_s.as_str()) };
    let minute = if has_colon { parse_u32(tail(&core, colon + 1).as_str()) } else { Some(0u32) };
    let h = match hour {
        Some(h) => h,
        None => {
            return Err(quoted_string("invalid hour in ", u));
        },
    };
    let m = match minute {
        Some(m) => m,
        None => {
            return Err(quoted_string("invalid minute in ", u));
        },
    };
    if h < 1 || h > 12 || m > 59 {
        return Err(quoted_string("invalid 12-hour time ", u));
    }
    let h24: u32 = if h == 12 { if pm { 12 } else { 0 } } else if pm { h + 12 } else { h };
    Ok(ClockTime { hour: h24, minute: m, second: 0 })
}

/// Reads a time of day: `HH:MM:SS` or `HH:MM` as chrono reads them, else a
/// 12-hour time; case and spaces are ignored.
pub fn parse_clock_time(x: &str) -> (r: Result<ClockTime, String>)
    ensures
        match r {
            Ok(c) => clock_time(x@) == Ok::<ClockTime, Seq<char>>(c),
            Err(e) => clock_time(x@) == Err::<ClockTime, Seq<char>>(e@),
        },
{
    let t = string_of(&trim_chars(x));
    let l = to_lowercase(t.as_str());
    let lc = chars_of(l.as_str());
    let mut kept: Vec<char> = Vec::new();
    let mut i: usize = 0;
    while i < lc.len()
        invariant
            0 <= i <= lc.len(),
            kept@ == lc@.take(i as int).filter(|c: char| c != ' '),
        decreases lc.len() - i,
    {
        proof {
            crate::store::table::lemma_filter_step(lc@, |c: char| c != ' ', i as int);
        }
        if lc[i] != ' ' {
            kept.push(lc[i]);
        }
        i = i + 1;
    }
    proof {
        assert(lc@.take(lc.len() as int) =~= lc@);
    }
    let u = string_of(&kept);
    if kept.len() == 0 {
        return Err("empty time".to_owned());
    }
    if let Some(c) = parse_naive_time(u.as_str(), "%H:%M:%S") {
        return Ok(c);
    }
    if let Some(c) = parse_naive_time(u.as_str(), "%H:%M") {
        return Ok(c);
    }
    twelve_hour_time(u.as_str())
}

/// The seconds of a relative duration such as `1 hour`, `30 minutes` or
/// `2 days`: a non-negative whole number and a unit (`hour`, `hours`, `hr`,
/// `hrs`, `h`; `minute`, `minutes`, `min`, `mins`, `m`; `day`, `days`, `d`),
/// within what a duration can hold.
pub fn parse_relative_seconds(r: &str) -> (res: Result<i64, String>)
    ensures
        match res {
            Ok(n) => relative_seconds(r@) == Ok::<i64, Seq<char>>(n),
            Err(e) => relative_seconds(r@) == Err::<i64, Seq<char>>(e@),
        },
{
    let parts = split_words(r);
    let ghost p = words(r@);
    proof {
        assert(parts@.map_values(|w: Vec<char>| w@).len() == parts@.len());
    }
    if parts.len() != 2 {
        let mut out: Vec<char> = Vec::new();
        push_str(&mut out, "invalid relative duration '");
        push_str(&mut out, r);
        push_str(&mut out, "'; expected 'N hour(s)|minute(s)'");
        return Err(string_of(&out));
    }
    proof {
        assert(parts@[0]@ == p[0]);
        assert(parts@[1]@ == p[1]);
    }
    let amount_text = string_of(&parts[0]);
    let amount = match parse_i64(amount_text.as_str()) {
        Some(a) => a,
        None => {
            return Err(quoted_string("invalid number in relative duration ", r));
        },
    };
    if amount < 0 {
        return Err("relative duration must be non-negative".to_owned());
    }
    let unit = string_of(&parts[1]);
    let u = unit.as_str();
    let per: i64 = if str_eq(u, "hour") || str_eq(u, "hours") || str_eq(u, "hr") || str_eq(u, "hrs") || str_eq(u, "h") {
        3600
    } else if str_eq(u, "minute") || str_eq(u, "minutes") || str_eq(u, "min") || str_eq(u, "mins") || str_eq(u, "m") {
        60
    } else if str_eq(u, "day") || str_eq(u, "days") || str_eq(u, "d") {
        86400
    } else {
        let mut out: Vec<char> = Vec::new();
        push_str(&mut out, "unknown duration unit '");
        push_str(&mut out, u);
        push_str(&mut out, "'; use hours, minutes, or days");
        return Err(string_of(&out));
    };
    if amount > MAX_DELTA_SECS / per {
        proof {
            assert(amount * per > MAX_DELTA_SECS) by (nonlinear_arith)
                requires amount > MAX_DELTA_SECS / per, per > 0;
        }
        let mut out: Vec<char> = Vec::new();
        push_str(&mut out, "relative duration '");
        push_str(&mut out, r);
        push_str(&mut out, "' is out of range");
        return Err(string_of(&out));
    }
    proof {
        assert(amount * per <= MAX_DELTA_SECS) by (nonlinear_arith)
            requires amount <= MAX_DELTA_SECS / per, per > 0, amount >= 0;
    }
    Ok(amount * per)
}

/// Days from weekday `today` to the next `target` weekday: one to seven.
pub fn days_until(target: u32, today: u32) -> (r: i64)
    requires
        target < 7,
        today < 7,
    ensures
        r == days_ahead(target, today),
        1 <= r <= 7,
{
    let diff: i64 = (target as i64) - (today as i64);
    if diff <= 0 { diff + 7 } else { diff }
}

/// Decides which moment the argument `s` names, or why it names none.
pub fn classify_datetime(s: &str) -> (r: Result<When, String>)
    ensures
        match r {
            Ok(w) => when_of(s@) == Ok::<When, Seq<char>>(w),
            Err(e) => when_of(s@) == Err::<When, Seq<char>>(e@),
        },
{
    let t = string_of(&trim_chars(s));
    let ts = t.as_str();
    if let Some(x) = parse_naive_datetime(ts, "%Y-%m-%dT%H:%M:%S") {
        return Ok(When::At { date: x.0, time: x.1 });
    }
    if let Some(x) = parse_naive_datetime(ts, "%Y-%m-%dT%H:%M") {
        return Ok(When::At { date: x.0, time: x.1 });
    }
    if let Some(x) = parse_naive_datetime(ts, "%Y-%m-%d %H:%M:%S") {
        return Ok(When::At { date: x.0, time: x.1 });
    }
    if let Some(x) = parse_naive_datetime(ts, "%Y-%m-%d %H:%M") {
        return Ok(When::At { date: x.0, time: x.1 });
    }
    if let Ok(d) = parse_naive_date(ts, "%Y-%m-%d") {
        return Ok(When::At { date: d, time: ClockTime { hour: 0, minute: 0, second: 0 } });
    }
    let lower = to_lowercase(ts);
    let l = chars_of(lower.as_str());
    proof {
        reveal_strlit("in ");
        reveal_strlit("tomorrow");
        reveal_strlit("today");
    }
    if starts_with(&l, "in ") {
        let rest = trimmed_tail(&l, 3);
        return match parse_relative_seconds(rest.as_str()) {
            Ok(n) => Ok(When::InSeconds { seconds: n }),
            Err(e) => Err(e),
        };
    }
    if starts_with(&l, "tomorrow") {
        let rest = trimmed_tail(&l, 8);
        if rest.as_str().is_empty() {
            return Ok(When::Tomorrow { time: ClockTime { hour: 9, minute: 0, second: 0 } });
        }
        return match parse_clock_time(rest.as_str()) {
            Ok(c) => Ok(When::Tomorrow { time: c }),
            Err(e) => Err(e),
        };
    }
    if starts_with(&l, "today") {
        let rest = trimmed_tail(&l, 5);
        if rest.as_str().is_empty() {
            return Ok(When::Now);
        }
        return match parse_clock_time(rest.as_str()) {
            Ok(c) => Ok(When::Today { time: c }),
            Err(e) => Err(e),
        };
    }
    proof {
        reveal_strlit("monday");
        reveal_strlit("tuesday");
        reveal_strlit("wednesday");
        reveal_strlit("thursday");
        reveal_strlit("friday");
        reveal_strlit("saturday");
        reveal_strlit("sunday");
    }
    let wd: Option<(u32, usize)> = if starts_with(&l, "monday") {
        Some((0, 6))
    } else if starts_with(&l, "tuesday") {
        Some((1, 7))
    } else if starts_with(&l, "wednesday") {
        Some((2, 9))
    } else if starts_with(&l, "thursday") {
        Some((3, 8))
    } else if starts_with(&l, "friday") {
        Some((4, 6))
    } else if starts_with(&l, "saturday") {
        Some((5, 8))
    } else if starts_with(&l, "sunday") {
        Some((6, 6))
    } else {
        None
    };
    if let Some((w, len)) = wd {
        let rest = trimmed_tail(&l, len);
        if rest.as_str().is_empty() {
            return Ok(When::Next { weekday: w, time: ClockTime { hour: 9, minute: 0, second: 0 } });
        }
        return match parse_clock_time(rest.as_str()) {
            Ok(c) => Ok(When::Next { weekday: w, time: c }),
            Err(e) => Err(e),
        };
    }
    match parse_clock_time(lower.as_str()) {
        Ok(c) => Ok(When::Today { time: c }),
        Err(_) => {
            let mut out: Vec<char> = Vec::new();
            push_str(&mut out, "cannot parse datetime '");
            push_str(&mut out, ts);
            push_str(&mut out, "'; expected formats: '2026-04-01T14:00', '2026-04-01 14:00', 'tomorrow 09:00', 'tomorrow 9am', 'today 5pm', 'friday 17:00', 'in 1 hour', 'in 30 minutes'");
            Err(string_of(&out))
        },
    }
}

/// Two decimal digits of `n`, which is below a hundred.
pub open spec fn two_digits(n: nat) -> Seq<char> {
    seq![digit_char(n / 10), digit_char(n % 10)]
}

/// Two decimal digits of `n`, which is below a hundred.
fn push_two(out: &mut Vec<char>, n: u32)
    requires
        n < 100,
    ensures
        final(out)@ == old(out)@ + two_digits(n as nat),
{
    if n < 10 {
        out.push('0');
        push_decimal(out, n as u64);
        assert(decimal(n as nat) == seq![digit_char(n as nat)]);
    } else {
        push_decimal(out, n as u64);
        assert(decimal(n as nat) == decimal((n / 10) as nat).push(digit_char((n % 10) as nat)));
        assert(decimal((n / 10) as nat) == seq![digit_char((n / 10) as nat)]);
    }
    assert(final(out)@ =~= old(out)@ + two_digits(n as nat)) by {
        assert(out@ =~= old(out)@ + two_digits(n as nat));
    }
}

/// The digits of `a`, padded with zeros to at least four.
pub open spec fn four_or_more(a: nat) -> Seq<char> {
    if a < 10 {
        "000"@ + decimal(a)
    } else if a < 100 {
        "00"@ + decimal(a)
    } else if a < 1000 {
        "0"@ + decimal(a)
    } else {
        decimal(a)
    }
}

/// A year as chrono writes it: four digits in 0 to 9999, otherwise a sign
/// and at least four digits.
pub open spec fn year_text(y: i32) -> Seq<char> {
    if 0 <= y <= 9999 {
        two_digits((y / 100) as nat) + two_digits((y % 100) as nat)
    } else if y < 0 {
        "-"@ + four_or_more((-(y as int)) as nat)
    } else {
        "+"@ + four_or_more(y as nat)
    }
}

/// A field below a hundred, or 99 for one that is not.
pub open spec fn below_hundred(x: u32) -> nat {
    if x < 100 { x as nat } else { 99 }
}

/// A separator followed by the two digits of a field.
pub open spec fn field_text(sep: char, x: u32) -> Seq<char> {
    seq![sep] + two_digits(below_hundred(x))
}

/// A local date and time as chrono shows it, `YYYY-MM-DD HH:MM:SS`.
pub open spec fn local_text_of(date: CivilDate, time: ClockTime) -> Seq<char> {
    year_text(date.year) + field_text('-', date.month) + field_text('-', date.day) + field_text(
        ' ',
        time.hour,
    ) + field_text(':', time.minute) + field_text(':', time.second)
}

/// Appends the year as chrono writes it.
pub(crate) fn push_year(out: &mut Vec<char>, year: i32)
    ensures
        final(out)@ == old(out)@ + year_text(year),
{
    if year >= 0 && year <= 9999 {
        let y = year as u32;
        push_two(out, y / 100);
        push_two(out, y % 100);
        assert(out@ =~= old(out)@ + year_text(year));
    } else {
        if year < 0 {
            out.push('-');
        } else {
            out.push('+');
        }
        let ghost signed = out@;
        let a: u64 = if year < 0 { (-(year as i64)) as u64 } else { year as u64 };
        if a < 10 {
            push_str(out, "000");
        } else if a < 100 {
            push_str(out, "00");
        } else if a < 1000 {
            push_str(out, "0");
        }
        push_decimal(out, a);
        proof {
            reveal_strlit("000");
            reveal_strlit("00");
            reveal_strlit("0");
            reveal_strlit("-");
            reveal_strlit("+");
            assert(out@.subrange(signed.len() as int, out@.len() as int) =~= four_or_more(a as nat));
            assert(out@ =~= old(out)@ + year_text(year));
        }
    }
}

/// Appends a separator and the two digits of a field; a field of a hundred
/// or more, which no valid date or time has, shows as 99.
pub(crate) fn push_field(out: &mut Vec<char>, sep: char, x: u32)
    ensures
        final(out)@ == old(out)@ + field_text(sep, x),
{
    out.push(sep);
    push_two(out, if x < 100 { x } else { 99 });
    assert(out@ =~= old(out)@ + field_text(sep, x));
}

/// A local date and time written as chrono shows it,
/// `YYYY-MM-DD HH:MM:SS`.
fn local_text(date: CivilDate, time: ClockTime) -> (r: String)
    ensures
        r@ == local_text_of(date, time),
{
    let mut out: Vec<char> = Vec::new();
    push_year(&mut out, date.year);
    push_field(&mut out, '-', date.month);
    push_field(&mut out, '-', date.day);
    push_field(&mut out, ' ', time.hour);
    push_field(&mut out, ':', time.minute);
    push_field(&mut out, ':', time.second);
    assert(out@ =~= local_text_of(date, time));
    string_of(&out)
}

/// The message for a local time that is invalid or ambiguous.
pub open spec fn invalid_local(date: CivilDate, time: ClockTime) -> Seq<char> {
    "ambiguous or invalid local datetime '"@ + local_text_of(date, time) + "'"@
}

/// The message for a local time that is invalid or ambiguous, as a string.
fn invalid_local_text(date: CivilDate, time: ClockTime) -> (r: String)
    ensures
        r@ == invalid_local(date, time),
{
    let mut out: Vec<char> = Vec::new();
    push_str(&mut out, "ambiguous or invalid local datetime '");
    let txt = local_text(date, time);
    push_str(&mut out, txt.as_str());
    push_str(&mut out, "'");
    assert(out@ =~= invalid_local(date, time));
    string_of(&out)
}

/// The message for a moment beyond the calendar's range.
pub open spec fn out_of_range() -> Seq<char> {
    "datetime is out of range"@
}

/// What a date-time argument comes to once the clock is read: an instant,
/// or a local date and time still to be placed in the time zone.
#[derive(Debug, Clone, Copy, PartialEq, Eq, Structural)]
pub enum Moment {
    /// An instant, seconds since the epoch.
    Instant { at: i64 },
    /// A local date and time.
    Local { date: CivilDate, time: ClockTime },
}

/// The local date `days` days after `day`'s date at `time`, or the
/// out-of-range message.
pub open spec fn local_after(day: CivilDate, days: int, time: ClockTime) -> Result<Moment, Seq<char>> {
    match civil_add_days(day, days as i64) {
        Some(d) => Ok(Moment::Local { date: d, time }),
        None => Err(out_of_range()),
    }
}

/// The moment `when` names at the instant `now`, whose local date and
/// weekday (0 is Monday) are `day`, or `None` where they cannot be read.
pub open spec fn moment_of(when: When, now: i64, day: Option<(CivilDate, u32)>) -> Result<Moment, Seq<char>> {
    match when {
        When::Now => Ok(Moment::Instant { at: now }),
        When::InSeconds { seconds } => match utc_plus(now, seconds) {
            Some(t) => Ok(Moment::Instant { at: t }),
            None => Err(out_of_range()),
        },
        When::At { date, time } => Ok(Moment::Local { date, time }),
        When::Today { time } => match day {
            Some((d, _)) => Ok(Moment::Local { date: d, time }),
            None => Err(out_of_range()),
        },
        When::Tomorrow { time } => match day {
            Some((d, _)) => local_after(d, 1, time),
            None => Err(out_of_range()),
        },
        When::Next { weekday, time } => match day {
            Some((d, w)) => if weekday < 7 && w < 7 {
                local_after(d, days_ahead(weekday, w), time)
            } else {
                Err(out_of_range())
            },
            None => Err(out_of_range()),
        },
    }
}

/// The out-of-range message as a string.
fn out_of_range_text() -> (r: String)
    ensures
        r@ == out_of_range(),
{
    let mut out: Vec<char> = Vec::new();
    push_str(&mut out, "datetime is out of range");
    assert(out@ =~= out_of_range());
    string_of(&out)
}

/// The local date `days` days after `day` at `time`.
fn local_after_exec(day: CivilDate, days: i64, time: ClockTime) -> (r: Result<Moment, String>)
    requires
        -7 <= days <= 7,
    ensures
        match r {
            Ok(m) => local_after(day, days as int, time) == Ok::<Moment, Seq<char>>(m),
            Err(e) => local_after(day, days as int, time) == Err::<Moment, Seq<char>>(e@),
        },
{
    match add_days(day, days) {
        Some(d) => Ok(Moment::Local { date: d, time }),
        None => Err(out_of_range_text()),
    }
}

/// The moment `when` names at the instant `now`, whose local date and
/// weekday are `day`: now, now plus the seconds, or the local date and time
/// (tomorrow is today plus one; a weekday is the next one strictly after
/// today), as [`moment_of`] states.
pub fn moment_at(when: When, now: i64, day: Option<(CivilDate, u32)>) -> (r: Result<Moment, String>)
    ensures
        match r {
            Ok(m) => moment_of(when, now, day) == Ok::<Moment, Seq<char>>(m),
            Err(e) => moment_of(when, now, day) == Err::<Moment, Seq<char>>(e@),
        },
{
    match when {
        When::Now => Ok(Moment::Instant { at: now }),
        When::InSeconds { seconds } => match add_seconds(now, seconds) {
            Some(t) => Ok(Moment::Instant { at: t }),
            None => Err(out_of_range_text()),
        },
        When::At { date, time } => Ok(Moment::Local { date, time }),
        When::Today { time } => match day {
            Some((d, _)) => Ok(Moment::Local { date: d, time }),
            None => Err(out_of_range_text()),
        },
        When::Tomorrow { time } => match day {
            Some((d, _)) => local_after_exec(d, 1, time),
            None => Err(out_of_range_text()),
        },
        When::Next { weekday, time } => match day {
            Some((d, w)) => if weekday < 7 && w < 7 {
                let ahead = days_until(weekday, w);
                local_after_exec(d, ahead, time)
            } else {
                Err(out_of_range_text())
            },
            None => Err(out_of_range_text()),
        },
    }
}

/// The moment the argument `s` names at the instant `now`, whose local
/// date and weekday are `day`: the classification's message where it names
/// none, else what [`moment_of`] gives.
pub open spec fn datetime_moment(s: Seq<char>, now: i64, day: Option<(CivilDate, u32)>) -> Result<Moment, Seq<char>> {
    match when_of(s) {
        Ok(w) => moment_of(w, now, day),
        Err(m) => Err(m),
    }
}

/// The moment that the argument `s` names, read against the clock's
/// reading `now` and the local date and weekday `day` of that reading (see
/// the module documentation for the accepted forms), as [`datetime_moment`]
/// states. A local moment still has to be placed in the time zone; see
/// [`place_moment`].
pub fn parse_datetime(s: &str, now: i64, day: Option<(CivilDate, u32)>) -> (r: Result<Moment, String>)
    ensures
        match r {
            Ok(m) => datetime_moment(s@, now, day) == Ok::<Moment, Seq<char>>(m),
            Err(e) => datetime_moment(s@, now, day) == Err::<Moment, Seq<char>>(e@),
        },
{
    let when = match classify_datetime(s) {
        Ok(w) => w,
        Err(e) => {
            return Err(e);
        },
    };
    moment_at(when, now, day)
}

/// The instant a moment comes to, `placed` being where the time zone puts a
/// local moment (`None`: the local time does not exist there or is
/// ambiguous).
pub open spec fn placed_at(m: Moment, placed: Option<i64>) -> Result<i64, Seq<char>> {
    match m {
        Moment::Instant { at } => Ok(at),
        Moment::Local { date, time } => match placed {
            Some(t) => Ok(t),
            None => Err(invalid_local(date, time)),
        },
    }
}

/// The instant a moment comes to, as [`placed_at`] states.
pub fn place_moment(m: Moment, placed: Option<i64>) -> (r: Result<i64, String>)
    ensures
        match r {
            Ok(t) => placed_at(m, placed) == Ok::<i64, Seq<char>>(t),
            Err(e) => placed_at(m, placed) == Err::<i64, Seq<char>>(e@),
        },
{
    match m {
        Moment::Instant { at } => Ok(at),
        Moment::Local { date, time } => match placed {
            Some(t) => Ok(t),
            None => Err(invalid_local_text(date, time)),
        },
    }
}

/// The clock and the time zone as the program read them for one
/// argument: the instant now, the local date and weekday of now, and where
/// the time zone places the local moment the argument names (`None`: it
/// does not exist there or is ambiguous; unused for other moments).
#[derive(Debug, Clone, Copy, PartialEq, Eq)]
pub struct TimeReading {
    /// Seconds since the epoch, now.
    pub now: i64,
    /// The local date and weekday (0 is Monday) of now, where read.
    pub day: Option<(CivilDate, u32)>,
    /// The instant of the local moment the argument names, where placed.
    pub placed: Option<i64>,
}

/// The instant the argument `s` names under the reading `t`, or why it
/// names none.
pub open spec fn instant_named(s: Seq<char>, t: TimeReading) -> Result<i64, Seq<char>> {
    match datetime_moment(s, t.now, t.day) {
        Ok(m) => placed_at(m, t.placed),
        Err(e) => Err(e),
    }
}

/// The instant the argument `s` names under the reading `t`, as
/// [`instant_named`] states.
pub fn instant_of(s: &str, t: &TimeReading) -> (r: Result<i64, String>)
    ensures
        match r {
            Ok(x) => instant_named(s@, *t) == Ok::<i64, Seq<char>>(x),
            Err(e) => instant_named(s@, *t) == Err::<i64, Seq<char>>(e@),
        },
{
    match parse_datetime(s, t.now, t.day) {
        Ok(m) => place_moment(m, t.placed),
        Err(e) => Err(e),
    }
}

} // verus!
