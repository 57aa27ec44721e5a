use scribe::cli::project::{OutputFormat, ProjectCommand, ProjectShow, ProjectSubcommand};
use scribe::cli::task::{TaskAdd, TaskCommand, TaskSubcommand};
use scribe::cli::track::{TrackCommand, TrackStart, TrackSubcommand};
use scribe::config::db_path_in;
use scribe::datetime::{add_seconds, moment_at, ClockTime, Moment, When, MAX_INSTANT, MIN_INSTANT};
use scribe::domain::slug::ensure_unique;
use scribe::domain::{CivilDate, NewNote, ProjectId, TaskPriority, TaskStatus};
use scribe::error::ScribeError;
use scribe::mcp::{track_report_at, TrackReportParams};
use scribe::ops::inbox::ProcessAction;
use scribe::ops::projects::{new_project, ops};
use scribe::ops::tasks::CreateTask;
use scribe::ops::{InboxOps, NotesOps, StartTimer, TaskOps, TodoOps, TrackerOps};
use scribe::report::{start_date, total_time, ReportingOps};
use scribe::service::{
    generate_launchd_plist, generate_systemd_unit, install_step, parse_plist_program_arguments,
    parse_systemd_exec_start, plist_file_is_current, unit_file_is_current, InstallStep,
};

fn task_in(project: &str, title: &str) -> CreateTask {
    CreateTask {
        project_slug: project.to_owned(),
        project_id: ProjectId(1),
        title: title.to_owned(),
        description: None,
        status: TaskStatus::Todo,
        priority: TaskPriority::Medium,
        due_date: None,
        parent_id: None,
    }
}

fn date(year: i32, month: u32, day: u32) -> CivilDate {
    CivilDate { year, month, day }
}

fn at(hour: u32, minute: u32) -> ClockTime {
    ClockTime { hour, minute, second: 0 }
}

#[test]
fn active_task_must_be_archived_before_delete() {
    let (_, mut store) = ops();
    let tasks = TaskOps::new();
    let t = tasks.create_task(&mut store, task_in("quick-capture", "Write")).expect("task");
    let e = tasks.delete_task(&mut store, &t.slug).unwrap_err();
    assert!(matches!(e, ScribeError::NotArchived { .. }));
    assert_eq!(tasks.get_task(&store, &t.slug), Some(t.clone()));
    tasks.archive_task(&mut store, &t.slug).expect("archive");
    tasks.delete_task(&mut store, &t.slug).expect("delete");
    assert!(tasks.get_task(&store, &t.slug).is_none());
}

#[test]
fn deleting_a_task_clears_references_to_it() {
    let (_, mut store) = ops();
    let tasks = TaskOps::new();
    let t = tasks.create_task(&mut store, task_in("quick-capture", "Parent")).expect("task");
    let mut sub = task_in("quick-capture", "Child");
    sub.parent_id = Some(t.id);
    let child = tasks.create_task(&mut store, sub).expect("child");
    let tracker = TrackerOps::new();
    let e = tracker
        .start_timer_at(
            &mut store,
            StartTimer { project_slug: "quick-capture".to_owned(), project_id: ProjectId(1), task_id: Some(t.id), note: None },
            1_700_000_000,
        )
        .expect("timer");
    tasks.archive_task(&mut store, &t.slug).expect("archive");
    tasks.delete_task(&mut store, &t.slug).expect("delete");
    assert_eq!(tasks.get_task(&store, &child.slug).expect("child").parent_id, None);
    let entries = tracker.list_recent(&store, 10);
    let kept = entries.iter().find(|x| x.slug == e.slug).expect("entry");
    assert_eq!(kept.task_id, None);
}

#[test]
fn archived_project_can_be_deleted() {
    let (projects, mut store) = ops();
    projects.create_project(&mut store, new_project("old")).expect("project");
    let todos = TodoOps::new();
    let t = todos.create(&mut store, "old", "thing").expect("todo");
    let tasks = TaskOps::new();
    let task = tasks.create_task(&mut store, task_in("old", "Work")).expect("task");
    assert!(projects.delete_project(&mut store, "old").is_err());
    projects.archive_project(&mut store, "old").expect("archive");
    projects.delete_project(&mut store, "old").expect("delete");
    assert!(projects.get_project(&store, "old").is_none());
    assert!(todos.get(&store, &t.slug).is_none());
    assert!(tasks.get_task(&store, &task.slug).is_none());
    assert!(todos.get(&store, "quick-capture-todo-thing").is_none());
}

#[test]
fn ensure_unique_resolves_one_collision() {
    let calls = std::cell::Cell::new(0);
    let s = ensure_unique("my-slug", |_| {
        calls.set(calls.get() + 1);
        calls.get() == 1
    })
    .expect("unique");
    assert_eq!(s.len(), 12);
    assert!(s.starts_with("my-slug-"));
    assert!(s[8..].chars().all(|c| c.is_ascii_lowercase() || c.is_ascii_digit()));
    assert_eq!(calls.get(), 2);
}

#[test]
fn ensure_unique_gives_up_after_every_attempt() {
    let calls = std::cell::Cell::new(0);
    let e = ensure_unique("taken", |_| {
        calls.set(calls.get() + 1);
        true
    })
    .unwrap_err();
    assert!(e.is_collision_limit());
    assert_eq!(calls.get(), 6);
}

#[test]
fn tomorrow_is_today_plus_one_at_the_time() {
    let wednesday = Some((date(2026, 4, 1), 2));
    let m = moment_at(When::Tomorrow { time: at(0, 0) }, 0, wednesday).expect("moment");
    assert_eq!(m, Moment::Local { date: date(2026, 4, 2), time: at(0, 0) });
    let m = moment_at(When::Tomorrow { time: at(12, 0) }, 0, wednesday).expect("moment");
    assert_eq!(m, Moment::Local { date: date(2026, 4, 2), time: at(12, 0) });
    let m = moment_at(When::Tomorrow { time: at(9, 0) }, 0, Some((date(2026, 12, 31), 3))).expect("moment");
    assert_eq!(m, Moment::Local { date: date(2027, 1, 1), time: at(9, 0) });
}

#[test]
fn weekday_is_the_next_one_after_today() {
    let wednesday = Some((date(2026, 4, 1), 2));
    let m = moment_at(When::Next { weekday: 4, time: at(17, 0) }, 0, wednesday).expect("moment");
    assert_eq!(m, Moment::Local { date: date(2026, 4, 3), time: at(17, 0) });
    let m = moment_at(When::Next { weekday: 2, time: at(9, 0) }, 0, wednesday).expect("moment");
    assert_eq!(m, Moment::Local { date: date(2026, 4, 8), time: at(9, 0) });
}

#[test]
fn relative_and_fixed_moments() {
    let now = 1_775_037_600;
    assert_eq!(moment_at(When::Now, now, None).expect("now"), Moment::Instant { at: now });
    assert_eq!(
        moment_at(When::InSeconds { seconds: 1800 }, now, None).expect("in"),
        Moment::Instant { at: now + 1800 }
    );
    let d = date(2026, 4, 1);
    assert_eq!(
        moment_at(When::At { date: d, time: at(14, 0) }, now, None).expect("at"),
        Moment::Local { date: d, time: at(14, 0) }
    );
    assert_eq!(moment_at(When::Today { time: at(9, 0) }, now, None).unwrap_err(), "datetime is out of range");
}

#[test]
fn instant_arithmetic_matches_the_calendar_range() {
    assert!(chrono::DateTime::from_timestamp(MAX_INSTANT, 0).is_some());
    assert!(chrono::DateTime::from_timestamp(MAX_INSTANT + 1, 0).is_none());
    assert!(chrono::DateTime::from_timestamp(MIN_INSTANT, 0).is_some());
    assert!(chrono::DateTime::from_timestamp(MIN_INSTANT - 1, 0).is_none());
    assert_eq!(add_seconds(100, 60), Some(160));
    assert_eq!(add_seconds(MAX_INSTANT, 1), None);
    assert_eq!(add_seconds(MAX_INSTANT - 1, 1), Some(MAX_INSTANT));
    assert_eq!(add_seconds(MAX_INSTANT + 1, 0), None);
}

#[test]
fn database_path_follows_the_data_directory() {
    assert_eq!(db_path_in(Some("/home/u/.local/share/scribe")), "/home/u/.local/share/scribe/scribe.db");
    assert_eq!(db_path_in(Some("/data/")), "/data/scribe.db");
    assert_eq!(db_path_in(None), ".local/share/scribe/scribe.db");
}

#[test]
fn week_window_starts_on_monday() {
    let wednesday = date(2026, 4, 1);
    assert_eq!(start_date(true, false, wednesday, 2), Some(wednesday));
    assert_eq!(start_date(false, true, wednesday, 2), Some(date(2026, 3, 30)));
    assert_eq!(start_date(false, false, wednesday, 2), None);
}

#[test]
fn track_report_at_reports_by_project_and_range() {
    let (_, mut store) = ops();
    let tracker = TrackerOps::new();
    let p = StartTimer { project_slug: "quick-capture".to_owned(), project_id: ProjectId(1), task_id: None, note: None };
    tracker.start_timer_at(&mut store, p, 1_000).expect("start");
    tracker.stop_timer_at(&mut store, 1_600).expect("stop");
    let ok = track_report_at(&store, TrackReportParams { project_slug: None, period: None }, 2_000).expect("report");
    assert_eq!(ok.len(), 1);
    assert_eq!(ok[0].1, 600);
    let missing =
        track_report_at(&store, TrackReportParams { project_slug: Some("nope".to_owned()), period: None }, 2_000);
    assert!(matches!(missing, Err(ScribeError::NotFound { .. })));
    let far = track_report_at(&store, TrackReportParams { project_slug: None, period: None }, i64::MAX);
    assert!(matches!(far, Err(ScribeError::TimeOutOfRange)));
}

#[test]
fn install_skips_repairs_or_installs() {
    assert_eq!(install_step(true, Some(true)), InstallStep::AlreadyCurrent);
    assert_eq!(install_step(true, Some(false)), InstallStep::Repair);
    assert_eq!(install_step(true, None), InstallStep::Repair);
    assert_eq!(install_step(false, Some(true)), InstallStep::Install);
    assert_eq!(install_step(false, None), InstallStep::Install);
}

#[test]
fn reports_count_and_sum() {
    let (projects, mut store) = ops();
    projects.create_project(&mut store, new_project("pay")).expect("project");
    let tasks = TaskOps::new();
    let mut due = task_in("pay", "Late");
    due.due_date = Some(date(2026, 1, 1));
    tasks.create_task(&mut store, due).expect("task");
    let mut done = task_in("pay", "Finished");
    done.status = TaskStatus::Done;
    tasks.create_task(&mut store, done).expect("task");
    TodoOps::new().create(&mut store, "pay", "thing").expect("todo");
    InboxOps::new().capture(&mut store, "idea").expect("capture");
    let tracker = TrackerOps::new();
    let pid = projects.get_project(&store, "pay").expect("project").id;
    let p = StartTimer { project_slug: "pay".to_owned(), project_id: pid, task_id: None, note: None };
    tracker.start_timer_at(&mut store, p, 1_000).expect("start");
    tracker.stop_timer_at(&mut store, 4_600).expect("stop");
    let reporting = ReportingOps::new();
    let s = reporting.summary_report(&store, 0, 10_000, date(2026, 4, 1));
    assert_eq!(s.active_projects, 2);
    assert_eq!(s.pending_tasks, 1);
    assert_eq!(s.overdue_tasks, 1);
    assert_eq!(s.open_todos, 1);
    assert_eq!(s.items_in_inbox, 1);
    assert_eq!(s.active_reminders, 0);
    assert_eq!(s.total_time_tracked, 3_600);
    let r = reporting.project_report(&store, "pay", 0, 10_000).expect("report");
    assert_eq!(r.pending_tasks.len(), 1);
    assert_eq!(r.open_todos.len(), 1);
    assert_eq!(r.total_time, 3_600);
    assert_eq!((r.done_tasks, r.all_tasks), (1, 2));
    assert!(reporting.project_report(&store, "nope", 0, 10_000).is_err());
    assert_eq!(total_time(&r.time_entries), 3_600);
}

#[test]
fn inbox_item_converts_to_todo() {
    let (_, mut store) = ops();
    let inbox = InboxOps::new();
    let c = inbox.capture(&mut store, "buy milk").expect("capture");
    let done = inbox
        .process(&mut store, &c.slug, ProcessAction::ConvertToTodo { project_slug: "quick-capture".to_owned(), title: None })
        .expect("process");
    assert!(done.processed);
    assert!(TodoOps::new().get(&store, "quick-capture-todo-buy-milk").is_some());
}

#[test]
fn task_is_created_with_a_suffix_when_its_slug_is_taken() {
    let (_, mut store) = ops();
    let tasks = TaskOps::new();
    let a = tasks.create_task(&mut store, task_in("quick-capture", "Same")).expect("first");
    let b = tasks.create_task(&mut store, task_in("quick-capture", "Same")).expect("second");
    assert_eq!(a.slug, "quick-capture-task-same");
    assert!(b.slug.starts_with("quick-capture-task-same-"));
    assert_eq!(b.slug.len(), a.slug.len() + 5);
}

#[test]
fn syncing_twice_keeps_only_the_second_links() {
    let (notes, mut store) = scribe::ops::notes::ops();
    for s in ["a", "b", "c"] {
        notes
            .create_note(&mut store, NewNote { slug: s.to_owned(), title: s.to_owned(), content: String::new() })
            .expect("note");
    }
    let ops = NotesOps::new();
    ops.sync_links(&mut store, "a", "see [[b]]");
    let first = store.next_link_id;
    ops.sync_links(&mut store, "a", "see [[c]] and [[c]] and [[a]]");
    assert_eq!(store.links.len(), 1);
    assert_eq!(store.links[0].target_slug, "c");
    assert_eq!(store.next_link_id, first + 1);
}

#[test]
fn project_show_reports_the_missing_slug() {
    let (projects, mut store) = ops();
    let cmd = ProjectCommand {
        subcommand: ProjectSubcommand::Show(ProjectShow { slug: "ghost".to_owned(), output: OutputFormat::Text }),
    };
    let e = scribe::cli::project::run(&cmd, &projects, &mut store).unwrap_err();
    assert_eq!(e.to_string(), "project 'ghost' not found");
}

#[test]
fn task_add_with_bad_due_date_creates_nothing() {
    let (projects, mut store) = ops();
    let cmd = TaskCommand {
        subcommand: TaskSubcommand::Add(TaskAdd {
            title: "T".to_owned(),
            project: None,
            priority: TaskPriority::Medium,
            due: Some("2026-13-45".to_owned()),
            output: OutputFormat::Text,
        }),
    };
    let e = scribe::cli::task::run(&cmd, &TaskOps::new(), &projects, &mut store).unwrap_err();
    assert!(e.to_string().contains("invalid date '2026-13-45'"));
    assert!(TaskOps::new().list_tasks(&store, None, None, None, true).is_empty());
}

#[test]
fn track_start_with_unknown_task_starts_nothing() {
    let (projects, mut store) = ops();
    let cmd = TrackCommand {
        subcommand: TrackSubcommand::Start(TrackStart {
            project: None,
            task: Some("nope".to_owned()),
            note: None,
            output: OutputFormat::Text,
        }),
    };
    let e = scribe::cli::track::run(
        &cmd,
        &TrackerOps::new(),
        &projects,
        &TaskOps::new(),
        &scribe::report::ClockReading { now: 1_000, today_start: None, week_start: None },
        &mut store,
    ).unwrap_err();
    assert!(matches!(e, ScribeError::NotFound { .. }));
    assert!(TrackerOps::new().timer_status(&store).is_none());
}

#[test]
fn generated_service_files_read_back_as_current() {
    let bin = "/usr/local/bin/scribe";
    let unit = generate_systemd_unit(bin);
    assert_eq!(parse_systemd_exec_start(&unit), Some(format!("{bin} service run")));
    assert!(unit_file_is_current(&unit, bin));
    assert!(!unit_file_is_current(&unit, "/opt/other"));
    let plist = generate_launchd_plist(bin, "/Users/me");
    assert_eq!(parse_plist_program_arguments(&plist), Some(bin.to_owned()));
    assert!(plist_file_is_current(&plist, bin));
    assert!(!plist_file_is_current(&plist, "/opt/other"));
}

#[test]
fn sub_task_inherits_the_parent_project() {
    let (projects, mut store) = ops();
    let p = projects.create_project(&mut store, new_project("feature")).expect("project");
    let tasks = TaskOps::new();
    let parent = tasks.create_task(&mut store, task_in("feature", "Build new feature")).expect("parent");
    let mut sub = task_in("quick-capture", "Write tests");
    sub.parent_id = Some(parent.id);
    let child = tasks.create_task(&mut store, sub).expect("child");
    assert_eq!(child.project_id, p.id);
    assert_eq!(child.parent_id, Some(parent.id));
    assert_eq!(child.slug, "feature-task-write-tests");
}
