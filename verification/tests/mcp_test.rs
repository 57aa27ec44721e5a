use scribe::datetime::TimeReading;
use scribe::mcp::{
    capture, inbox_list, inbox_process, project_archive, project_create, project_list, project_restore,
    reminder_archive, reminder_create, reminder_list, task_archive, task_create, task_done, task_list,
    timer_start, timer_status, timer_stop, todo_archive, todo_create, todo_done, todo_list, track_report,
    CaptureParams, InboxProcessParams, ProjectCreateParams, ProjectSlugParam, ReminderCreateParams,
    ReminderListParams, ReminderSlugParam, TaskCreateParams, TaskListParams, TaskSlugParam, TimerStartParams,
    TodoCreateParams, TodoListParams, TodoSlugParam, TrackReportParams,
};
use scribe::domain::{TaskPriority, TaskStatus};
use scribe::mcp::{read_resource, ResourceReply};
use scribe::store::Store;

fn store() -> Store {
    Store::new(1_700_000_000)
}

fn create_payments(s: &mut Store) {
    project_create(
        s,
        ProjectCreateParams { slug: "payments".to_owned(), name: "Payments".to_owned(), description: None },
    )
    .expect("project");
}

#[test]
fn project_tools_create_archive_restore() {
    let mut s = store();
    create_payments(&mut s);
    assert_eq!(project_list(&s).len(), 2);
    let dup = project_create(
        &mut s,
        ProjectCreateParams { slug: "payments".to_owned(), name: "Again".to_owned(), description: None },
    )
    .unwrap_err();
    assert_eq!(dup.to_string(), "project 'payments' already exists");
    let archived = project_archive(&mut s, ProjectSlugParam { slug: "payments".to_owned() }).expect("archive");
    assert!(archived.archived_at.is_some());
    assert_eq!(project_list(&s).len(), 1);
    let restored = project_restore(&mut s, ProjectSlugParam { slug: "payments".to_owned() }).expect("restore");
    assert!(restored.archived_at.is_none());
    let reserved = project_archive(&mut s, ProjectSlugParam { slug: "quick-capture".to_owned() }).unwrap_err();
    assert_eq!(reserved.to_string(), "project 'quick-capture' is reserved and cannot be archived");
}

#[test]
fn task_create_defaults_to_inbox_and_medium() {
    let mut s = store();
    let t = task_create(
        &mut s,
        TaskCreateParams { title: "  Fix login  ".to_owned(), project_slug: None, priority: None, due_date: None },
    )
    .expect("task");
    assert_eq!(t.slug, "quick-capture-task-fix-login");
    assert_eq!(t.title, "Fix login");
    assert_eq!(t.priority, TaskPriority::Medium);
    assert_eq!(t.status, TaskStatus::Todo);
    assert!(t.due_date.is_none());
}

#[test]
fn task_create_reads_priority_and_due_date() {
    let mut s = store();
    let t = task_create(
        &mut s,
        TaskCreateParams {
            title: "Ship".to_owned(),
            project_slug: Some("quick-capture".to_owned()),
            priority: Some("urgent".to_owned()),
            due_date: Some("2026-04-01".to_owned()),
        },
    )
    .expect("task");
    assert_eq!(t.priority, TaskPriority::Urgent);
    let d = t.due_date.expect("due");
    assert_eq!((d.year, d.month, d.day), (2026, 4, 1));
}

#[test]
fn task_create_errors_in_order() {
    let mut s = store();
    let e = task_create(
        &mut s,
        TaskCreateParams {
            title: "X".to_owned(),
            project_slug: Some("nope".to_owned()),
            priority: Some("bogus".to_owned()),
            due_date: None,
        },
    )
    .unwrap_err();
    assert_eq!(e.to_string(), "project 'nope' not found");
    let e = task_create(
        &mut s,
        TaskCreateParams { title: "X".to_owned(), project_slug: None, priority: Some("bogus".to_owned()), due_date: None },
    )
    .unwrap_err();
    assert_eq!(e.to_string(), "unknown task priority 'bogus'");
    let e = task_create(
        &mut s,
        TaskCreateParams { title: "X".to_owned(), project_slug: None, priority: None, due_date: Some("tomorrow".to_owned()) },
    )
    .unwrap_err();
    assert!(e.to_string().starts_with("invalid due date 'tomorrow': "));
}

#[test]
fn task_list_filters_by_status_and_project() {
    let mut s = store();
    create_payments(&mut s);
    let t = task_create(
        &mut s,
        TaskCreateParams { title: "A".to_owned(), project_slug: Some("payments".to_owned()), priority: None, due_date: None },
    )
    .expect("task");
    task_create(&mut s, TaskCreateParams { title: "B".to_owned(), project_slug: None, priority: None, due_date: None })
        .expect("task");
    task_done(&mut s, TaskSlugParam { slug: t.slug.clone() }).expect("done");
    let done = task_list(&s, TaskListParams { project_slug: None, status: Some("done".to_owned()) }).expect("list");
    assert_eq!(done.len(), 1);
    assert_eq!(done[0].slug, t.slug);
    let pay = task_list(&s, TaskListParams { project_slug: Some("payments".to_owned()), status: None }).expect("list");
    assert_eq!(pay.len(), 1);
    let bad = task_list(&s, TaskListParams { project_slug: None, status: Some("later".to_owned()) }).unwrap_err();
    assert_eq!(bad.to_string(), "unknown task status 'later'");
    let missing = task_list(&s, TaskListParams { project_slug: Some("nope".to_owned()), status: None }).unwrap_err();
    assert_eq!(missing.to_string(), "project 'nope' not found");
    task_archive(&mut s, TaskSlugParam { slug: t.slug.clone() }).expect("archive");
    let all = task_list(&s, TaskListParams { project_slug: None, status: None }).expect("list");
    assert_eq!(all.len(), 1);
}

#[test]
fn todo_tools_round_trip() {
    let mut s = store();
    let t = todo_create(&mut s, TodoCreateParams { title: "Milk".to_owned(), project_slug: None }).expect("todo");
    assert_eq!(t.slug, "quick-capture-todo-milk");
    assert_eq!(todo_list(&s, TodoListParams { project_slug: None }).expect("list").len(), 1);
    let d = todo_done(&mut s, TodoSlugParam { slug: t.slug.clone() }).expect("done");
    assert!(d.done);
    assert!(todo_list(&s, TodoListParams { project_slug: None }).expect("list").is_empty());
    let a = todo_archive(&mut s, TodoSlugParam { slug: t.slug.clone() }).expect("archive");
    assert!(a.archived_at.is_some());
    let e = todo_list(&s, TodoListParams { project_slug: Some("nope".to_owned()) }).unwrap_err();
    assert_eq!(e.to_string(), "project 'nope' not found");
}

#[test]
fn timer_tools_start_stop() {
    let mut s = store();
    let e = timer_start(&mut s, TimerStartParams { project_slug: None, task_slug: None, note: Some("n".to_owned()) })
        .expect("start");
    assert!(e.slug.starts_with("quick-capture-entry-"));
    assert_eq!(e.note.as_deref(), Some("n"));
    assert!(timer_status(&s).is_some());
    let again = timer_start(&mut s, TimerStartParams { project_slug: None, task_slug: None, note: None }).unwrap_err();
    assert!(again.to_string().contains("already running"));
    let stopped = timer_stop(&mut s).expect("stop");
    assert!(stopped.ended_at.is_some());
    assert!(timer_status(&s).is_none());
    assert!(timer_stop(&mut s).is_err());
    let missing_task = timer_start(
        &mut s,
        TimerStartParams { project_slug: None, task_slug: Some("ghost".to_owned()), note: None },
    )
    .unwrap_err();
    assert_eq!(missing_task.to_string(), "task 'ghost' not found");
    let missing_project = timer_start(
        &mut s,
        TimerStartParams { project_slug: Some("nope".to_owned()), task_slug: None, note: None },
    )
    .unwrap_err();
    assert_eq!(missing_project.to_string(), "project 'nope' not found");
}

#[test]
fn track_report_covers_finished_entries() {
    let mut s = store();
    timer_start(&mut s, TimerStartParams { project_slug: None, task_slug: None, note: None }).expect("start");
    timer_stop(&mut s).expect("stop");
    let all = track_report(&s, TrackReportParams { project_slug: None, period: None }).expect("report");
    assert_eq!(all.len(), 1);
    assert!(all[0].1 >= 0);
    let today = track_report(&s, TrackReportParams { project_slug: None, period: Some("today".to_owned()) })
        .expect("report");
    assert_eq!(today.len(), 1);
    let e = track_report(&s, TrackReportParams { project_slug: Some("nope".to_owned()), period: None }).unwrap_err();
    assert_eq!(e.to_string(), "project 'nope' not found");
}

#[test]
fn inbox_tools_process_actions() {
    let mut s = store();
    let c = capture(&mut s, CaptureParams { body: "Call bank".to_owned() }).expect("capture");
    assert_eq!(inbox_list(&s).len(), 1);
    let e = inbox_process(
        &mut s,
        InboxProcessParams { slug: c.slug.clone(), action: "task".to_owned(), project_slug: None, title: None },
    )
    .unwrap_err();
    assert_eq!(e.to_string(), "project_slug required for action 'task'");
    let e = inbox_process(
        &mut s,
        InboxProcessParams { slug: c.slug.clone(), action: "later".to_owned(), project_slug: None, title: None },
    )
    .unwrap_err();
    assert_eq!(e.to_string(), "unknown action 'later'; use task, todo, assign, or discard");
    let done = inbox_process(
        &mut s,
        InboxProcessParams {
            slug: c.slug.clone(),
            action: "todo".to_owned(),
            project_slug: Some("quick-capture".to_owned()),
            title: None,
        },
    )
    .expect("process");
    assert!(done.processed);
    assert!(inbox_list(&s).is_empty());
    let todos = todo_list(&s, TodoListParams { project_slug: None }).expect("list");
    assert_eq!(todos[0].title, "Call bank");
    assert!(capture(&mut s, CaptureParams { body: "  ".to_owned() }).is_err());
}

#[test]
fn reminder_tools_create_list_archive() {
    let mut s = store();
    let r = reminder_create(
        &mut s,
        ReminderCreateParams {
            project_slug: "quick-capture".to_owned(),
            at: "in 2 hours".to_owned(),
            task_slug: None,
            message: Some("Stretch".to_owned()),
            persistent: None,
        },
        &TimeReading { now: 1_775_037_600, day: None, placed: None },
    )
    .expect("reminder");
    assert_eq!(r.remind_at, 1_775_037_600 + 7200);
    assert_eq!(r.slug, "quick-capture-reminder-stretch");
    assert!(!r.persistent);
    assert_eq!(reminder_list(&s, ReminderListParams { project_slug: None }).expect("list").len(), 1);
    let bad = reminder_create(
        &mut s,
        ReminderCreateParams {
            project_slug: "quick-capture".to_owned(),
            at: "whenever".to_owned(),
            task_slug: None,
            message: None,
            persistent: Some(true),
        },
        &TimeReading { now: 1_775_037_600, day: None, placed: None },
    )
    .unwrap_err();
    assert!(bad.to_string().starts_with("invalid datetime 'whenever': cannot parse datetime 'whenever'"));
    let a = reminder_archive(&mut s, ReminderSlugParam { slug: r.slug.clone() }).expect("archive");
    assert!(a.archived_at.is_some());
    assert!(reminder_list(&s, ReminderListParams { project_slug: None }).expect("list").is_empty());
}

#[test]
fn resources_read_by_address() {
    let mut s = store();
    todo_create(&mut s, TodoCreateParams { title: "Read".to_owned(), project_slug: None }).expect("todo");
    match read_resource(&s, "scribe://projects").expect("projects") {
        ResourceReply::Projects(v) => assert_eq!(v.len(), 1),
        other => panic!("unexpected {other:?}"),
    }
    match read_resource(&s, "scribe://todos/active").expect("todos") {
        ResourceReply::Todos(v) => assert_eq!(v[0].title, "Read"),
        other => panic!("unexpected {other:?}"),
    }
    match read_resource(&s, "scribe://timer/active").expect("timer") {
        ResourceReply::Timer(t) => assert!(t.is_none()),
        other => panic!("unexpected {other:?}"),
    }
    let e = read_resource(&s, "scribe://nowhere").unwrap_err();
    assert_eq!(e.to_string(), "unknown resource URI 'scribe://nowhere'");
}
