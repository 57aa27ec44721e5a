use scribe::domain::{ProjectPatch, ProjectStatus, TaskPriority, TaskStatus};
use scribe::ops::projects::{new_project, ops};
use scribe::ops::{NotesOps, ProjectOps, StartTimer, TaskOps, TodoOps, TrackerOps};
use scribe::domain::NewNote;
use scribe::ops::tasks::CreateTask;
use scribe::domain::ProjectId;

#[test]
fn archiving_a_project_archives_its_items() {
    let (projects, mut store) = ops();
    let p = projects.create_project(&mut store, new_project("payments")).expect("project");
    let todos = TodoOps::new();
    let t = todos.create(&mut store, "payments", "Invoice").expect("todo");
    let other = todos.create(&mut store, "quick-capture", "Keep").expect("todo");
    let tracker = TrackerOps::new();
    tracker
        .start_timer(
            &mut store,
            StartTimer { project_slug: "payments".to_owned(), project_id: p.id, task_id: None, note: None },
        )
        .expect("timer");
    projects.archive_project(&mut store, "payments").expect("archive");
    assert!(todos.get(&store, &t.slug).expect("todo").archived_at.is_some());
    assert!(todos.get(&store, &other.slug).expect("todo").archived_at.is_none());
    assert!(tracker.list_recent(&store, 10).is_empty());
    let restored = projects.restore_project(&mut store, "payments").expect("restore");
    assert!(restored.archived_at.is_none());
    assert!(todos.get(&store, &t.slug).expect("todo").archived_at.is_some());
}

#[test]
fn reserved_project_cannot_be_archived_or_deleted() {
    let (projects, mut store) = ops();
    let e = projects.archive_project(&mut store, "quick-capture").unwrap_err();
    assert_eq!(e.to_string(), "project 'quick-capture' is reserved and cannot be archived");
    let e = projects.delete_project(&mut store, "quick-capture").unwrap_err();
    assert_eq!(e.to_string(), "project 'quick-capture' is reserved and cannot be deleted");
}

#[test]
fn project_with_items_cannot_be_deleted() {
    let (projects, mut store) = ops();
    projects.create_project(&mut store, new_project("p")).expect("project");
    TodoOps::new().create(&mut store, "p", "thing").expect("todo");
    let e = projects.delete_project(&mut store, "p").unwrap_err();
    assert_eq!(e.to_string(), "project 'p' still has linked items; archive and remove them first");
    projects.create_project(&mut store, new_project("empty")).expect("project");
    projects.delete_project(&mut store, "empty").expect("delete");
    assert!(projects.get_project(&store, "empty").is_none());
}

#[test]
fn project_update_renames_and_rejects_clashes() {
    let (projects, mut store) = ops();
    projects.create_project(&mut store, new_project("a")).expect("a");
    projects.create_project(&mut store, new_project("b")).expect("b");
    let patch = ProjectPatch { slug: Some("b".to_owned()), ..ProjectPatch::empty() };
    assert!(projects.update_project(&mut store, "a", patch).is_err());
    let patch = ProjectPatch { status: Some(ProjectStatus::Paused), ..ProjectPatch::empty() };
    let p = projects.update_project(&mut store, "a", patch).expect("update");
    assert_eq!(p.status, ProjectStatus::Paused);
}

#[test]
fn status_names_read_back() {
    for s in [TaskStatus::Todo, TaskStatus::InProgress, TaskStatus::Done, TaskStatus::Cancelled] {
        assert_eq!(TaskStatus::parse(s.as_str()), Ok(s));
    }
    for p in [TaskPriority::Low, TaskPriority::Medium, TaskPriority::High, TaskPriority::Urgent] {
        assert_eq!(TaskPriority::parse(p.as_str()), Ok(p));
    }
    for p in [ProjectStatus::Active, ProjectStatus::Paused, ProjectStatus::Completed] {
        assert_eq!(ProjectStatus::parse(p.as_str()), Ok(p));
    }
}

#[test]
fn note_links_follow_content() {
    let (notes, mut store) = scribe::ops::notes::ops();
    let _ = NotesOps::new();
    let n = notes
        .create_note(
            &mut store,
            NewNote { slug: "design".to_owned(), title: "Design".to_owned(), content: "see [[api]] and [[design]] and [[api]]".to_owned() },
        )
        .expect("note");
    assert!(notes.links_store(&store).is_empty());
    notes.save_content(&mut store, "design", n.content.clone()).expect("save");
    let links = notes.links_store(&store);
    assert_eq!(links.len(), 1);
    assert_eq!(links[0].source_slug, n.slug);
    assert_eq!(links[0].target_slug, "api");
    notes.save_content(&mut store, "design", "now [[db]] [[cache]]".to_owned()).expect("save");
    let targets: Vec<&str> = notes.links_store(&store).iter().map(|l| l.target_slug.as_str()).collect();
    assert_eq!(targets, vec!["db", "cache"]);
    assert_eq!(notes.search_notes(&store, "cache").len(), 1);
    assert!(notes.search_notes(&store, "nothing here").is_empty());
}

#[test]
fn task_create_in_archived_project_fails() {
    let (projects, mut store) = ops();
    let p = projects.create_project(&mut store, new_project("old")).expect("p");
    projects.archive_project(&mut store, "old").expect("archive");
    let e = TaskOps::new()
        .create_task(
            &mut store,
            CreateTask {
                project_slug: "old".to_owned(),
                project_id: p.id,
                title: "t".to_owned(),
                description: None,
                status: TaskStatus::Todo,
                priority: TaskPriority::Low,
                due_date: None,
                parent_id: None,
            },
        )
        .unwrap_err();
    assert!(e.to_string().contains("is archived"));
    let e = TaskOps::new()
        .create_task(
            &mut store,
            CreateTask {
                project_slug: "quick-capture".to_owned(),
                project_id: ProjectId(1),
                title: "   ".to_owned(),
                description: None,
                status: TaskStatus::Todo,
                priority: TaskPriority::Low,
                due_date: None,
                parent_id: None,
            },
        )
        .unwrap_err();
    assert_eq!(e.to_string(), "task title cannot be empty");
    let _ = ProjectOps::new();
}
