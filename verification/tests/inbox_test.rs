use scribe::ops::{InboxOps, ProcessAction, TodoOps};
use scribe::store::Store;

fn now() -> i64 {
    std::time::SystemTime::now()
        .duration_since(std::time::UNIX_EPOCH)
        .map(|d| d.as_secs() as i64)
        .unwrap_or(0)
}

fn setup() -> (InboxOps, Store) {
    (InboxOps::new(), Store::new(now()))
}

#[test]
fn test_capture_creates_item() {
    let (ops, mut store) = setup();
    let item = ops.capture(&mut store, "Buy groceries").expect("capture");
    assert_eq!(item.body, "Buy groceries");
    assert!(!item.processed);
    assert!(item.slug.starts_with("capture-"));
}

#[test]
fn test_capture_trims_whitespace() {
    let (ops, mut store) = setup();
    let item = ops.capture(&mut store, "  hello  ").expect("capture");
    assert_eq!(item.body, "hello");
}

#[test]
fn test_capture_empty_body_returns_error() {
    let (ops, mut store) = setup();
    let err = ops.capture(&mut store, "   ").unwrap_err();
    assert!(err.to_string().contains("empty"));
}

#[test]
fn test_process_discard() {
    let (ops, mut store) = setup();
    let item = ops.capture(&mut store, "Discard me").expect("capture");
    let processed = ops.process(&mut store, &item.slug, ProcessAction::Discard).expect("process");
    assert!(processed.processed);
}

#[test]
fn test_process_convert_to_todo() {
    let (ops, mut store) = setup();
    let item = ops.capture(&mut store, "Convert to todo").expect("capture");
    let processed = ops
        .process(
            &mut store,
            &item.slug,
            ProcessAction::ConvertToTodo { project_slug: "quick-capture".to_owned(), title: None },
        )
        .expect("process");
    assert!(processed.processed);
}

#[test]
fn test_process_project_not_found_returns_error() {
    let (ops, mut store) = setup();
    let item = ops.capture(&mut store, "No project").expect("capture");
    let err = ops.process(&mut store, &item.slug, ProcessAction::Discard).map(|_| ());
    assert!(err.is_ok(), "Discard should have succeeded, but got error: {:?}", err.err());

    let item2 = ops.capture(&mut store, "No project 2").expect("capture");
    let err2 = ops
        .process(
            &mut store,
            &item2.slug,
            ProcessAction::AssignToProject { project_slug: "nonexistent".to_owned() },
        )
        .unwrap_err();
    assert!(err2.to_string().contains("not found"));
}

#[test]
fn capture_slug_is_stamped() {
    let (ops, mut store) = setup();
    let item = ops.capture_at(&mut store, "note", 1_774_967_400).expect("capture");
    assert_eq!(item.slug, "capture-20260331-143000");
    assert_eq!(item.created_at, 1_774_967_400);
}

#[test]
fn converted_todo_takes_body_as_title() {
    let (ops, mut store) = setup();
    let item = ops.capture(&mut store, "Water plants").expect("capture");
    ops.process(
        &mut store,
        &item.slug,
        ProcessAction::ConvertToTodo { project_slug: "quick-capture".to_owned(), title: None },
    )
    .expect("process");
    let todos = TodoOps::new().list(&store, None, true, false);
    assert_eq!(todos.len(), 1);
    assert_eq!(todos[0].title, "Water plants");
    assert!(ops.list(&store, false).is_empty());
    assert_eq!(ops.list(&store, true).len(), 1);
}

#[test]
fn failed_process_leaves_item_unprocessed() {
    let (ops, mut store) = setup();
    let item = ops.capture(&mut store, "Keep me").expect("capture");
    let _ = ops.process(
        &mut store,
        &item.slug,
        ProcessAction::ConvertToTask { project_slug: "missing".to_owned(), title: None, priority: None },
    );
    assert!(!ops.get(&store, &item.slug).expect("item").processed);
}
