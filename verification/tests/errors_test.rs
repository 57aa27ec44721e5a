use scribe::domain::slug::{generate, suffix_from_seed};
use scribe::domain::{ProjectId, TaskPatch, TaskPriority, TaskStatus, TodoPatch};
use scribe::ops::projects::new_project;
use scribe::ops::tasks::CreateTask;
use scribe::ops::{CreateReminder, InboxOps, ProjectOps, ReminderOps, StartTimer, TaskOps, TodoOps, TrackerOps};
use scribe::store::{Store, Table};

fn task_in(project: &str, title: &str) -> CreateTask {
    CreateTask {
        project_slug: project.to_owned(),
        project_id: ProjectId(1),
        title: title.to_owned(),
        description: None,
        status: TaskStatus::Todo,
        priority: TaskPriority::Medium,
        due_date: None,
        parent_id: None,
    }
}

#[test]
fn each_error_reads_as_documented() {
    let mut s = Store::new(0);
    let projects = ProjectOps::new();
    let tasks = TaskOps::new();
    let todos = TodoOps::new();
    let reminders = ReminderOps::new();

    assert_eq!(projects.get_project(&s, "x").map(|p| p.slug), None);
    assert_eq!(
        projects.archive_project(&mut s, "ghost").unwrap_err().to_string(),
        "project 'ghost' not found"
    );
    projects.create_project(&mut s, new_project("old")).expect("old");
    assert_eq!(
        projects.create_project(&mut s, new_project("old")).unwrap_err().to_string(),
        "project 'old' already exists"
    );
    let t = tasks.create_task(&mut s, task_in("old", "Write")).expect("task");
    assert_eq!(
        projects.delete_project(&mut s, "old").unwrap_err().to_string(),
        "project 'old' still has linked items; archive and remove them first"
    );
    projects.archive_project(&mut s, "old").expect("archive");
    assert_eq!(
        todos.create(&mut s, "old", "x").unwrap_err().to_string(),
        "project 'old' is archived; restore it before adding todos"
    );
    let e = reminders
        .create(
            &mut s,
            CreateReminder {
                project_slug: "quick-capture".to_owned(),
                task_slug: Some(t.slug.clone()),
                remind_at: 10,
                message: Some("m".to_owned()),
                persistent: false,
            },
        )
        .unwrap_err();
    assert_eq!(e.to_string(), format!("task '{}' is archived; restore it first", t.slug));
    let e = tasks.delete_task(&mut s, "nope").unwrap_err();
    assert_eq!(e.to_string(), "task 'nope' not found");
    let todo = todos.create(&mut s, "quick-capture", "keep").expect("todo");
    assert_eq!(
        todos.delete(&mut s, &todo.slug).unwrap_err().to_string(),
        format!("todo '{}' must be archived before deletion", todo.slug)
    );
    let patch = TodoPatch { title: None, done: None, project_id: Some(ProjectId(999)) };
    assert_eq!(todos.update(&mut s, &todo.slug, patch).unwrap_err().to_string(), "project id 999 does not exist");
    let patch = TaskPatch { project_id: Some(ProjectId(999)), ..TaskPatch::empty() };
    assert_eq!(tasks.update_task(&mut s, &t.slug, patch).unwrap_err().to_string(), "project id 999 does not exist");
    assert_eq!(
        tasks.create_task(&mut s, task_in("quick-capture", "  ")).unwrap_err().to_string(),
        "task title cannot be empty"
    );
    let long = format!("{}é", "a".repeat(39));
    let t = tasks.create_task(&mut s, task_in("quick-capture", &long)).expect("forty characters");
    assert_eq!(t.slug, format!("quick-capture-task-{long}"));
    let inbox = InboxOps::new();
    assert_eq!(inbox.capture(&mut s, "\t \n").unwrap_err().to_string(), "capture body must not be empty");
    assert_eq!(
        inbox.capture_at(&mut s, "late", i64::MAX).unwrap_err().to_string(),
        "time is out of the calendar's range"
    );
    let tracker = TrackerOps::new();
    assert_eq!(tracker.stop_timer(&mut s).unwrap_err().to_string(), "no timer is currently running");
    let e = tracker
        .start_timer_at(
            &mut s,
            StartTimer { project_slug: "quick-capture".to_owned(), project_id: ProjectId(999), task_id: None, note: None },
            100,
        )
        .unwrap_err();
    assert_eq!(e.to_string(), "project id 999 does not exist");
}

#[test]
fn ids_run_out() {
    let mut s = Store::new(0);
    s.todos = Table::from_rows(Vec::new(), i64::MAX).expect("table");
    let e = TodoOps::new().create(&mut s, "quick-capture", "last").unwrap_err();
    assert_eq!(e.to_string(), "no ids are left to hand out");
}

#[test]
fn titles_are_cut_at_forty_characters() {
    let long = format!("{}é", "a".repeat(39));
    assert_eq!(generate("", &long), long);
    assert_eq!(generate("", &"é".repeat(30)), "é".repeat(30));
    let mixed = format!("a{}", "é".repeat(30));
    assert_eq!(generate("", &mixed), mixed);
    assert_eq!(generate("", &"é".repeat(50)), "é".repeat(40));
    assert_eq!(generate("p-", "Hello"), "p-hello");
}

fn lcg_suffix(seed: u32) -> String {
    let alphabet: Vec<char> = "abcdefghijklmnopqrstuvwxyz0123456789".chars().collect();
    let mut state = u64::from(seed);
    let mut out = String::new();
    for _ in 0..4 {
        state = state.wrapping_mul(6_364_136_223_846_793_005).wrapping_add(1_442_695_040_888_963_407);
        out.push(alphabet[((state >> 33) % 36) as usize]);
    }
    out
}

#[test]
fn suffix_follows_the_generator() {
    for seed in [0u32, 1, 42, 0xDEAD_BEEF, u32::MAX] {
        let got: String = suffix_from_seed(seed).into_iter().collect();
        assert_eq!(got, lcg_suffix(seed));
    }
}
