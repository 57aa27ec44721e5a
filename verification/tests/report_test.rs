use scribe::report::{format_duration, report_window, compute_time_window, ALL_TIME_SPAN};

#[test]
fn format_duration_shows_hours_and_minutes() {
    assert_eq!(format_duration(6 * 3600 + 42 * 60), "6h 42m");
}

#[test]
fn format_duration_shows_minutes_only_when_no_hours() {
    assert_eq!(format_duration(45 * 60), "45m");
}

#[test]
fn format_duration_shows_zero_minutes() {
    assert_eq!(format_duration(0), "0m");
}

#[test]
fn format_duration_drops_leftover_seconds() {
    assert_eq!(format_duration(3600 + 59), "1h 0m");
    assert_eq!(format_duration(59), "0m");
}

#[test]
fn report_window_today_starts_at_midnight() {
    let now = 1_774_967_400;
    assert_eq!(report_window(Some("today"), now), (1_774_915_200, now + 1));
}

#[test]
fn report_window_week_starts_on_monday() {
    let now = 1_774_967_400;
    assert_eq!(report_window(Some("week"), now), (1_774_828_800, now + 1));
}

#[test]
fn report_window_all_time_starts_at_epoch() {
    assert_eq!(report_window(None, 500), (0, 501));
    assert_eq!(report_window(Some("month"), 500), (0, 501));
}

#[test]
fn compute_time_window_uses_local_starts() {
    assert_eq!(compute_time_window(true, false, 1000, Some(400), Some(100)).unwrap(), (400, 1001));
    assert_eq!(compute_time_window(false, true, 1000, Some(400), Some(100)).unwrap(), (100, 1001));
    assert_eq!(compute_time_window(false, false, 1000, None, None).unwrap(), (0, 1000 + ALL_TIME_SPAN));
    assert!(compute_time_window(true, false, 1000, None, Some(1)).is_err());
    assert!(compute_time_window(false, false, i64::MAX, None, None).is_err());
}

#[test]
fn compute_time_window_all_time_starts_at_epoch() {
    let (since, until) = scribe::report::compute_time_window(false, false, 5000, Some(10), Some(1)).unwrap();
    assert_eq!(since, 0);
    assert_eq!(until, 5000 + ALL_TIME_SPAN);
    let (today, end) = scribe::report::compute_time_window(true, false, 5000, Some(4000), None).unwrap();
    assert_eq!((today, end), (4000, 5001));
}
