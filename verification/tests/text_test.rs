use scribe::datetime::{classify_datetime, days_until, parse_clock_time, parse_relative_seconds, twelve_hour_time, When};
use scribe::domain::links::parse_links;
use scribe::numbers::{parse_i64, parse_u32};

#[test]
fn parse_links_keeps_first_occurrences() {
    let links = parse_links("See [[alpha]] and [[beta-2]], then [[alpha]] again.");
    assert_eq!(links, vec!["alpha".to_owned(), "beta-2".to_owned()]);
}

#[test]
fn parse_links_rejects_bad_slugs() {
    assert_eq!(parse_links("[[Upper]]"), vec!["Upper".to_owned()]);
    assert!(parse_links("[[-bad]]").is_empty());
    assert!(parse_links("[[has space]]").is_empty());
    assert!(parse_links("[[]]").is_empty());
    assert!(parse_links("[[unclosed").is_empty());
}

#[test]
fn parse_links_finds_nested_brackets() {
    assert_eq!(parse_links("[[[x]]]"), vec!["x".to_owned()]);
}

#[test]
fn numbers_parse_exactly() {
    assert_eq!(parse_u32("42"), Some(42));
    assert_eq!(parse_u32("4294967295"), Some(u32::MAX));
    assert_eq!(parse_u32("4294967296"), None);
    assert_eq!(parse_u32(""), None);
    assert_eq!(parse_u32("1a"), None);
    assert_eq!(parse_i64("-17"), Some(-17));
    assert_eq!(parse_i64("9223372036854775807"), Some(i64::MAX));
    assert_eq!(parse_i64("9223372036854775808"), None);
}

#[test]
fn twelve_hour_times_read() {
    let t = twelve_hour_time("9am").expect("9am");
    assert_eq!((t.hour, t.minute), (9, 0));
    let t = twelve_hour_time("12pm").expect("12pm");
    assert_eq!(t.hour, 12);
    let t = twelve_hour_time("12am").expect("12am");
    assert_eq!(t.hour, 0);
    let t = twelve_hour_time("5:30pm").expect("5:30pm");
    assert_eq!((t.hour, t.minute), (17, 30));
    assert!(twelve_hour_time("13pm").is_err());
}

#[test]
fn clock_times_read() {
    let t = parse_clock_time("14:05").expect("24h");
    assert_eq!((t.hour, t.minute), (14, 5));
    assert!(parse_clock_time("25:00").is_err());
}

#[test]
fn relative_durations_read() {
    assert_eq!(parse_relative_seconds("1 hour"), Ok(3600));
    assert_eq!(parse_relative_seconds("30 minutes"), Ok(1800));
    assert_eq!(parse_relative_seconds("2 days"), Ok(172_800));
    assert!(parse_relative_seconds("3 fortnights").is_err());
}

#[test]
fn days_until_is_one_to_seven() {
    assert_eq!(days_until(4, 1), 3);
    assert_eq!(days_until(1, 1), 7);
    assert_eq!(days_until(0, 6), 1);
}

#[test]
fn classify_datetime_forms() {
    match classify_datetime("2026-04-01T14:00").expect("iso") {
        When::At { date, time } => {
            assert_eq!((date.year, date.month, date.day), (2026, 4, 1));
            assert_eq!((time.hour, time.minute), (14, 0));
        }
        other => panic!("unexpected {other:?}"),
    }
    assert!(matches!(classify_datetime("tomorrow 9am"), Ok(When::Tomorrow { .. })));
    assert!(matches!(classify_datetime("today"), Ok(When::Now)));
    assert!(matches!(classify_datetime("friday 17:00"), Ok(When::Next { weekday: 4, .. })));
    assert!(matches!(classify_datetime("in 30 minutes"), Ok(When::InSeconds { seconds: 1800 })));
    let err = classify_datetime("whenever").unwrap_err();
    assert!(err.starts_with("cannot parse datetime 'whenever'"));
}
