use scribe::datetime::{instant_of, parse_datetime, place_moment, ClockTime, Moment, TimeReading};
use scribe::domain::CivilDate;

const NOW: i64 = 1_775_000_000;

fn wednesday() -> Option<(CivilDate, u32)> {
    Some((CivilDate { year: 2026, month: 4, day: 1 }, 2))
}

fn local(month: u32, day: u32, hour: u32, minute: u32) -> Moment {
    Moment::Local {
        date: CivilDate { year: 2026, month, day },
        time: ClockTime { hour, minute, second: 0 },
    }
}

fn parse(s: &str) -> Result<Moment, String> {
    parse_datetime(s, NOW, wednesday())
}

#[test]
fn fixed_dates_are_local_times() {
    assert_eq!(parse("2026-04-01T14:00:00"), Ok(local(4, 1, 14, 0)));
    assert_eq!(parse("2026-04-01T14:00"), Ok(local(4, 1, 14, 0)));
    assert_eq!(parse("2026-04-01 14:00"), Ok(local(4, 1, 14, 0)));
    assert_eq!(parse("  2026-04-01 14:00:30 "), Ok(Moment::Local {
        date: CivilDate { year: 2026, month: 4, day: 1 },
        time: ClockTime { hour: 14, minute: 0, second: 30 },
    }));
    assert_eq!(parse("2026-04-01"), Ok(local(4, 1, 0, 0)));
}

#[test]
fn tomorrow_today_and_clock_times() {
    assert_eq!(parse("tomorrow 09:00"), Ok(local(4, 2, 9, 0)));
    assert_eq!(parse("tomorrow 9am"), Ok(local(4, 2, 9, 0)));
    assert_eq!(parse("tomorrow"), Ok(local(4, 2, 9, 0)));
    assert_eq!(parse("Tomorrow 12am"), Ok(local(4, 2, 0, 0)));
    assert_eq!(parse("tomorrow 12pm"), Ok(local(4, 2, 12, 0)));
    assert_eq!(parse("today 5pm"), Ok(local(4, 1, 17, 0)));
    assert_eq!(parse("today"), Ok(Moment::Instant { at: NOW }));
    assert_eq!(parse("9am"), Ok(local(4, 1, 9, 0)));
    assert_eq!(parse("5:30pm"), Ok(local(4, 1, 17, 30)));
    assert_eq!(parse("14:30"), Ok(local(4, 1, 14, 30)));
}

#[test]
fn weekdays_are_strictly_ahead() {
    assert_eq!(parse("friday 17:00"), Ok(local(4, 3, 17, 0)));
    assert_eq!(parse("wednesday"), Ok(local(4, 8, 9, 0)));
    assert_eq!(parse("monday 8am"), Ok(local(4, 6, 8, 0)));
}

#[test]
fn relative_durations_count_from_now() {
    assert_eq!(parse("in 1 hour"), Ok(Moment::Instant { at: NOW + 3600 }));
    assert_eq!(parse("in 30 minutes"), Ok(Moment::Instant { at: NOW + 1800 }));
    assert_eq!(parse("in 2 days"), Ok(Moment::Instant { at: NOW + 172_800 }));
    assert_eq!(parse("in 2 weeks").unwrap_err(), "unknown duration unit 'weeks'; use hours, minutes, or days");
    assert_eq!(parse("in -1 hours").unwrap_err(), "relative duration must be non-negative");
    assert_eq!(parse("in x hours").unwrap_err(), "invalid number in relative duration 'x hours'");
    assert_eq!(parse("in 1").unwrap_err(), "invalid relative duration '1'; expected 'N hour(s)|minute(s)'");
}

#[test]
fn unreadable_input_is_refused() {
    let e = parse("someday").unwrap_err();
    assert!(e.starts_with("cannot parse datetime 'someday'; expected formats:"), "{e}");
    assert_eq!(parse("tomorrow 13pm").unwrap_err(), "invalid 12-hour time '13pm'");
    assert_eq!(parse("tomorrow 25:00").unwrap_err(), "invalid time '25:00'");
    assert_eq!(parse_datetime("tomorrow 9am", NOW, None).unwrap_err(), "datetime is out of range");
}

#[test]
fn local_moments_take_the_placed_instant() {
    assert_eq!(place_moment(Moment::Instant { at: 42 }, None), Ok(42));
    assert_eq!(place_moment(local(4, 2, 12, 0), Some(1_775_124_000)), Ok(1_775_124_000));
    assert_eq!(
        place_moment(local(4, 2, 12, 0), None).unwrap_err(),
        "ambiguous or invalid local datetime '2026-04-02 12:00:00'"
    );
    let reading = TimeReading { now: NOW, day: wednesday(), placed: Some(1_775_124_000) };
    assert_eq!(instant_of("tomorrow 12pm", &reading), Ok(1_775_124_000));
    assert_eq!(instant_of("in 1 hour", &reading), Ok(NOW + 3600));
    let unplaced = TimeReading { now: NOW, day: wednesday(), placed: None };
    assert_eq!(
        instant_of("tomorrow 12pm", &unplaced).unwrap_err(),
        "ambiguous or invalid local datetime '2026-04-02 12:00:00'"
    );
}
