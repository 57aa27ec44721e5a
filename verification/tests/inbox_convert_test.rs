use scribe::domain::TaskPriority;
use scribe::error::ScribeError;
use scribe::ops::{InboxOps, ProcessAction, TaskOps, TodoOps};
use scribe::store::Store;

#[test]
fn converted_task_is_a_plain_task_of_the_project() {
    let inbox = InboxOps::new();
    let mut store = Store::new(1_000);
    let item = inbox.capture(&mut store, "Pay rent").expect("capture");
    inbox
        .process(
            &mut store,
            &item.slug,
            ProcessAction::ConvertToTask {
                project_slug: "quick-capture".to_owned(),
                title: Some("  Pay rent  ".to_owned()),
                priority: Some(TaskPriority::High),
            },
        )
        .expect("process");
    let task = TaskOps::new().get_task(&store, "quick-capture-task-pay-rent").expect("task");
    assert_eq!(task.title, "Pay rent");
    assert_eq!(task.priority, TaskPriority::High);
    assert_eq!(task.description, None);
    assert_eq!(task.due_date, None);
    assert_eq!(task.parent_id, None);
    assert_eq!(task.archived_at, None);
    assert!(inbox.get(&store, &item.slug).expect("item").processed);
}

#[test]
fn blank_title_is_refused_and_leaves_the_item() {
    let inbox = InboxOps::new();
    let mut store = Store::new(1_000);
    let item = inbox.capture(&mut store, "Something").expect("capture");
    let r = inbox.process(
        &mut store,
        &item.slug,
        ProcessAction::ConvertToTask { project_slug: "quick-capture".to_owned(), title: Some("   ".to_owned()), priority: None },
    );
    assert!(matches!(r, Err(ScribeError::EmptyTitle)));
    assert!(!inbox.get(&store, &item.slug).expect("item").processed);
}

#[test]
fn ids_are_handed_out_in_sequence() {
    let mut store = Store::new(1_000);
    let todos = TodoOps::new();
    let a = todos.create(&mut store, "quick-capture", "one").expect("todo");
    let b = todos.create(&mut store, "quick-capture", "two").expect("todo");
    let c = todos.create(&mut store, "quick-capture", "three").expect("todo");
    assert_eq!(b.id.0, a.id.0 + 1);
    assert_eq!(c.id.0, b.id.0 + 1);
}
