use scribe::domain::{CivilDate, ProjectId, TaskPriority, TaskStatus};
use scribe::ops::projects::{new_project, ops};
use scribe::ops::tasks::CreateTask;
use scribe::ops::{StartTimer, TaskOps, TodoOps, TrackerOps};
use scribe::report::{
    detailed_project_report_lines, detailed_task_report_lines, summary_report_lines, ReportingOps, SummaryReport,
};

const RULE: &str = "────────────────────────────────────────────────────────────";

fn task_in(project: &str, title: &str, status: TaskStatus) -> CreateTask {
    CreateTask {
        project_slug: project.to_owned(),
        project_id: ProjectId(1),
        title: title.to_owned(),
        description: None,
        status,
        priority: TaskPriority::Medium,
        due_date: None,
        parent_id: None,
    }
}

fn store_with_work() -> scribe::store::Store {
    let (projects, mut store) = ops();
    projects.create_project(&mut store, new_project("pay")).expect("project");
    let tasks = TaskOps::new();
    let mut late = task_in("pay", "Late", TaskStatus::Todo);
    late.description = Some("file the form".to_owned());
    late.due_date = Some(CivilDate { year: 2026, month: 1, day: 9 });
    tasks.create_task(&mut store, late).expect("task");
    tasks.create_task(&mut store, task_in("pay", "Finished", TaskStatus::Done)).expect("task");
    TodoOps::new().create(&mut store, "pay", "thing").expect("todo");
    let pid = projects.get_project(&store, "pay").expect("project").id;
    let tracker = TrackerOps::new();
    let p = StartTimer { project_slug: "pay".to_owned(), project_id: pid, task_id: None, note: Some("call bank".to_owned()) };
    tracker.start_timer_at(&mut store, p, 1_000).expect("start");
    tracker.stop_timer_at(&mut store, 4_600).expect("stop");
    store
}

#[test]
fn detailed_project_report_lists_everything() {
    let store = store_with_work();
    let mut r = ReportingOps::new().project_report(&store, "pay", 0, 10_000).expect("report");
    r.project.created_at = 1_000;
    r.project.updated_at = 90_061;
    r.project.description = Some("Bills".to_owned());
    r.pending_tasks[0].created_at = 31_536_000;
    r.open_todos[0].created_at = 0;
    let lines = detailed_project_report_lines(&r, "all time");
    let expected = vec![
        "Detailed Project Report: pay (pay)".to_owned(),
        "Status: active | Created: 1970-01-01 00:16:40 UTC | Updated: 1970-01-02 01:01:01 UTC".to_owned(),
        "Description: Bills".to_owned(),
        RULE.to_owned(),
        "Pending Tasks (Detailed):".to_owned(),
        "- Late (medium)".to_owned(),
        "  Status: todo | Created: 1971-01-01".to_owned(),
        "  Notes: file the form".to_owned(),
        String::new(),
        "Open Todos (Detailed):".to_owned(),
        "- [ ] thing (Created: 1970-01-01)".to_owned(),
        String::new(),
        "Detailed Tracked Time:".to_owned(),
        "- 1970-01-01 00:16:40 to 1970-01-01 01:16:40 (1h 0m)".to_owned(),
        "  Note: call bank".to_owned(),
        RULE.to_owned(),
        "Total Project Time: 1h 0m".to_owned(),
        "Completion: 50.0% (1 tasks done, 1 pending)".to_owned(),
        "(all time)".to_owned(),
    ];
    assert_eq!(lines, expected);
}

#[test]
fn detailed_project_report_of_an_empty_project() {
    let (projects, mut store) = ops();
    projects.create_project(&mut store, new_project("calm")).expect("project");
    let mut r = ReportingOps::new().project_report(&store, "calm", 0, 10_000).expect("report");
    r.project.created_at = 0;
    r.project.updated_at = 0;
    let lines = detailed_project_report_lines(&r, "today");
    let expected = vec![
        "Detailed Project Report: calm (calm)".to_owned(),
        "Status: active | Created: 1970-01-01 00:00:00 UTC | Updated: 1970-01-01 00:00:00 UTC".to_owned(),
        RULE.to_owned(),
        "Pending Tasks: none".to_owned(),
        String::new(),
        "Open Todos: none".to_owned(),
        String::new(),
        "Detailed Tracked Time: none".to_owned(),
        RULE.to_owned(),
        "Total Project Time: 0m".to_owned(),
        "Completion: 0.0% (0 tasks done, 0 pending)".to_owned(),
        "(today)".to_owned(),
    ];
    assert_eq!(lines, expected);
}

#[test]
fn completion_rounds_to_a_tenth() {
    let (projects, mut store) = ops();
    projects.create_project(&mut store, new_project("odd")).expect("project");
    let tasks = TaskOps::new();
    tasks.create_task(&mut store, task_in("odd", "One", TaskStatus::Done)).expect("task");
    tasks.create_task(&mut store, task_in("odd", "Two", TaskStatus::Todo)).expect("task");
    tasks.create_task(&mut store, task_in("odd", "Three", TaskStatus::Todo)).expect("task");
    let r = ReportingOps::new().project_report(&store, "odd", 0, 10_000).expect("report");
    let lines = detailed_project_report_lines(&r, "week");
    assert!(lines.contains(&"Completion: 33.3% (1 tasks done, 2 pending)".to_owned()), "{lines:?}");
}

#[test]
fn detailed_task_report_shows_lifecycle_and_time() {
    let store = store_with_work();
    let reporting = ReportingOps::new();
    let p = reporting.project_report(&store, "pay", 0, 10_000).expect("report");
    let slug = p.pending_tasks[0].slug.clone();
    let mut r = reporting.task_report(&store, &slug).expect("task report");
    r.task.created_at = 1_000;
    let lines = detailed_task_report_lines(&r);
    let expected = vec![
        format!("Task Report: Late ({slug})"),
        "Project: pay | Priority: medium | Status: todo".to_owned(),
        "Due: 2026-01-09".to_owned(),
        "Description: file the form".to_owned(),
        RULE.to_owned(),
        "Lifecycle:".to_owned(),
        "- 1970-01-01 00:16:40 UTC: Created".to_owned(),
        String::new(),
        "Related Time Tracking: none".to_owned(),
        RULE.to_owned(),
        "Total Task Time: 0m".to_owned(),
    ];
    assert_eq!(lines, expected);
}

fn counts() -> SummaryReport {
    SummaryReport {
        active_projects: 2,
        pending_tasks: 5,
        open_todos: 3,
        items_in_inbox: 1,
        active_reminders: 4,
        total_time_tracked: 2 * 3600 + 5 * 60,
        overdue_tasks: 2,
    }
}

#[test]
fn compact_summary_lines() {
    let expected = vec![
        "Scribe Summary Report (all time)".to_owned(),
        RULE.to_owned(),
        "Projects:     2 active".to_owned(),
        "Tasks:        5 pending, 2 overdue".to_owned(),
        "Todos:        3 open".to_owned(),
        "Inbox:        1 unprocessed items".to_owned(),
        "Reminders:    4 active".to_owned(),
        "Time Tracked: 2h 5m".to_owned(),
        RULE.to_owned(),
    ];
    assert_eq!(summary_report_lines(&counts(), "all time", false), expected);
}

#[test]
fn detailed_summary_lines() {
    let expected = vec![
        "Detailed Scribe Summary Report (week)".to_owned(),
        RULE.to_owned(),
        "Active Projects: 2".to_owned(),
        "Pending Tasks: 5 (2 overdue)".to_owned(),
        "Open Todos: 3".to_owned(),
        "Unprocessed Inbox Items: 1".to_owned(),
        "Active Reminders: 4".to_owned(),
        "Time Tracked: 2h 5m".to_owned(),
        RULE.to_owned(),
    ];
    assert_eq!(summary_report_lines(&counts(), "week", true), expected);
}

#[test]
fn stamps_beyond_the_calendar_fall_back_to_seconds() {
    let (projects, mut store) = ops();
    projects.create_project(&mut store, new_project("far")).expect("project");
    let mut r = ReportingOps::new().project_report(&store, "far", 0, 10_000).expect("report");
    r.project.created_at = i64::MAX;
    r.project.updated_at = 8_210_266_876_799;
    let lines = detailed_project_report_lines(&r, "all time");
    assert_eq!(
        lines[1],
        "Status: active | Created: 9223372036854775807 | Updated: +262142-12-31 23:59:59 UTC"
    );
}
