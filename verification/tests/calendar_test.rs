use chrono::{Datelike, Duration, NaiveDate};
use scribe::datetime::{moment_at, ClockTime, Moment, When};
use scribe::domain::CivilDate;
use scribe::report::start_date;

fn civil(d: NaiveDate) -> CivilDate {
    CivilDate { year: d.year(), month: d.month(), day: d.day() }
}

fn noon() -> ClockTime {
    ClockTime { hour: 12, minute: 0, second: 0 }
}

#[test]
fn day_arithmetic_agrees_with_chrono() {
    let mut d = NaiveDate::from_ymd_opt(1899, 12, 20).expect("date");
    let end = NaiveDate::from_ymd_opt(2101, 1, 10).expect("date");
    while d <= end {
        let w = d.weekday().num_days_from_monday();
        let today = Some((civil(d), w));
        let tomorrow = moment_at(When::Tomorrow { time: noon() }, 0, today).expect("tomorrow");
        assert_eq!(tomorrow, Moment::Local { date: civil(d + Duration::days(1)), time: noon() });
        for target in 0u32..7 {
            let ahead = (target + 7 - w - 1) % 7 + 1;
            let next = moment_at(When::Next { weekday: target, time: noon() }, 0, today).expect("next");
            assert_eq!(next, Moment::Local { date: civil(d + Duration::days(ahead as i64)), time: noon() });
        }
        let monday = start_date(false, true, civil(d), w).expect("monday");
        assert_eq!(monday, civil(d - Duration::days(w as i64)));
        d = d + Duration::days(1);
    }
}

#[test]
fn day_arithmetic_at_leap_days_and_calendar_edges() {
    let plus_one = |y: i32, m: u32, dd: u32| {
        moment_at(When::Tomorrow { time: noon() }, 0, Some((CivilDate { year: y, month: m, day: dd }, 0)))
    };
    let local = |y: i32, m: u32, dd: u32| Moment::Local { date: CivilDate { year: y, month: m, day: dd }, time: noon() };
    assert_eq!(plus_one(2024, 2, 28).expect("leap"), local(2024, 2, 29));
    assert_eq!(plus_one(2000, 2, 28).expect("leap"), local(2000, 2, 29));
    assert_eq!(plus_one(2100, 2, 28).expect("common"), local(2100, 3, 1));
    assert_eq!(plus_one(2026, 12, 31).expect("year end"), local(2027, 1, 1));
    assert_eq!(plus_one(262142, 12, 30).expect("last day"), local(262142, 12, 31));
    assert_eq!(plus_one(262142, 12, 31).unwrap_err(), "datetime is out of range");
    assert_eq!(plus_one(2026, 2, 30).unwrap_err(), "datetime is out of range");
    assert_eq!(plus_one(2026, 13, 1).unwrap_err(), "datetime is out of range");
    assert_eq!(NaiveDate::from_ymd_opt(262143, 1, 1), None);
    assert_eq!(start_date(false, true, CivilDate { year: -262143, month: 1, day: 1 }, 3), None);
    assert_eq!(
        start_date(false, true, CivilDate { year: -262143, month: 1, day: 4 }, 3),
        Some(CivilDate { year: -262143, month: 1, day: 1 })
    );
    assert_eq!(NaiveDate::from_ymd_opt(-262143, 1, 1).map(civil), Some(CivilDate { year: -262143, month: 1, day: 1 }));
    assert_eq!(NaiveDate::from_ymd_opt(-262144, 12, 31), None);
}
