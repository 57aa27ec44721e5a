use scribe::domain::ProjectId;
use scribe::ops::tracker::diff_seconds;
use scribe::ops::{StartTimer, TrackerOps};
use scribe::store::Store;

fn now() -> i64 {
    std::time::SystemTime::now()
        .duration_since(std::time::UNIX_EPOCH)
        .map(|d| d.as_secs() as i64)
        .unwrap_or(0)
}

fn setup() -> (TrackerOps, Store) {
    (TrackerOps::new(), Store::new(now()))
}

fn qc() -> StartTimer {
    StartTimer { project_slug: "quick-capture".to_owned(), project_id: ProjectId(1), task_id: None, note: None }
}

#[test]
fn test_start_timer_creates_entry() {
    let (ops, mut store) = setup();
    let entry = ops.start_timer(&mut store, qc()).expect("start");
    assert!(entry.ended_at.is_none());
    assert!(entry.slug.starts_with("quick-capture-entry-"));
}

#[test]
fn test_start_timer_blocked_when_running() {
    let (ops, mut store) = setup();
    ops.start_timer(&mut store, qc()).expect("first start");
    let err = ops.start_timer(&mut store, qc()).unwrap_err();
    assert!(err.to_string().contains("already running"));
}

#[test]
fn test_stop_timer() {
    let (ops, mut store) = setup();
    ops.start_timer(&mut store, qc()).expect("start");
    let stopped = ops.stop_timer(&mut store).expect("stop");
    assert!(stopped.ended_at.is_some());
}

#[test]
fn test_stop_timer_when_none_running() {
    let (ops, mut store) = setup();
    let err = ops.stop_timer(&mut store).unwrap_err();
    assert!(err.to_string().contains("no timer"));
}

#[test]
fn test_timer_status_none_when_idle() {
    let (ops, store) = setup();
    assert!(ops.timer_status(&store).is_none());
}

#[test]
fn test_timer_status_returns_elapsed() {
    let (ops, mut store) = setup();
    ops.start_timer(&mut store, qc()).expect("start");
    let (_, elapsed) = ops.timer_status(&store).expect("running");
    assert!(elapsed >= 0);
}

#[test]
fn test_list_recent_returns_entries() {
    let (ops, mut store) = setup();
    ops.start_timer(&mut store, qc()).expect("start");
    ops.stop_timer(&mut store).expect("stop");
    let recent = ops.list_recent(&store, 10);
    assert!(!recent.is_empty());
}

#[test]
fn test_update_note_changes_note() {
    let (ops, mut store) = setup();
    let entry = ops.start_timer(&mut store, qc()).expect("start");
    let updated = ops.update_note(&mut store, &entry.slug, Some("My note".to_owned())).expect("update note");
    assert_eq!(updated.note.as_deref(), Some("My note"));
}

#[test]
fn test_archive_entry_archives() {
    let (ops, mut store) = setup();
    let entry = ops.start_timer(&mut store, qc()).expect("start");
    ops.stop_timer(&mut store).expect("stop");
    let archived = ops.archive_entry(&mut store, &entry.slug).expect("archive entry");
    assert!(archived.archived_at.is_some());
}

#[test]
fn timer_at_fixed_times_reports_elapsed_and_slug() {
    let (ops, mut store) = setup();
    let entry = ops.start_timer_at(&mut store, qc(), 1_774_967_400).expect("start");
    assert_eq!(entry.slug, "quick-capture-entry-20260331-143000");
    let (_, elapsed) = ops.timer_status_at(&store, 1_774_967_400 + 125).expect("running");
    assert_eq!(elapsed, 125);
    let err = ops.start_timer_at(&mut store, qc(), 1_774_967_400 + 125).unwrap_err();
    assert_eq!(
        err.to_string(),
        "timer 'quick-capture-entry-20260331-143000' is already running (2m 5s elapsed); stop it first with `scribe track stop`"
    );
    let stopped = ops.stop_timer_at(&mut store, 1_774_967_400 + 600).expect("stop");
    assert_eq!(stopped.ended_at, Some(1_774_967_400 + 600));
}

#[test]
fn report_gives_durations_in_window() {
    let (ops, mut store) = setup();
    ops.start_timer_at(&mut store, qc(), 1000).expect("start");
    ops.stop_timer_at(&mut store, 1600).expect("stop");
    ops.start_timer_at(&mut store, qc(), 5000).expect("start");
    ops.stop_timer_at(&mut store, 5060).expect("stop");
    let all = ops.report(&store, None, 0, 10_000);
    assert_eq!(all.len(), 2);
    assert_eq!(all[0].1, 600);
    assert_eq!(all[1].1, 60);
    let early = ops.report(&store, None, 0, 2000);
    assert_eq!(early.len(), 1);
    let other = ops.report(&store, Some(ProjectId(99)), 0, 10_000);
    assert!(other.is_empty());
}

#[test]
fn list_recent_is_newest_first_and_limited() {
    let (ops, mut store) = setup();
    for k in 0..3 {
        ops.start_timer_at(&mut store, qc(), 1000 + k * 100).expect("start");
        ops.stop_timer_at(&mut store, 1050 + k * 100).expect("stop");
    }
    let recent = ops.list_recent(&store, 2);
    assert_eq!(recent.len(), 2);
    assert_eq!(recent[0].started_at, 1200);
    assert_eq!(recent[1].started_at, 1100);
}

#[test]
fn diff_seconds_saturates() {
    assert_eq!(diff_seconds(10, 3), 7);
    assert_eq!(diff_seconds(i64::MAX, -1), i64::MAX);
    assert_eq!(diff_seconds(i64::MIN, 1), i64::MIN);
}

#[test]
fn resolve_unknown_project_fails() {
    let (ops, store) = setup();
    let err = ops.resolve_project(&store, "ghost").unwrap_err();
    assert_eq!(err.to_string(), "project 'ghost' not found");
    let (slug, id) = ops.resolve_project(&store, "quick-capture").expect("resolve");
    assert_eq!(slug, "quick-capture");
    assert_eq!(id, ProjectId(1));
}
