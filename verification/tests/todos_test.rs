use scribe::domain::TodoPatch;
use scribe::ops::TodoOps;
use scribe::store::Store;

fn now() -> i64 {
    std::time::SystemTime::now()
        .duration_since(std::time::UNIX_EPOCH)
        .map(|d| d.as_secs() as i64)
        .unwrap_or(0)
}

fn setup() -> (TodoOps, Store) {
    (TodoOps::new(), Store::new(now()))
}

#[test]
fn test_create_generates_slug() {
    let (ops, mut store) = setup();
    let todo = ops.create(&mut store, "quick-capture", "Buy groceries").expect("create");
    assert_eq!(todo.slug, "quick-capture-todo-buy-groceries");
}

#[test]
fn todos_test_create_project_not_found_returns_error() {
    let (ops, mut store) = setup();
    let err = ops.create(&mut store, "nonexistent", "Title").unwrap_err();
    assert!(err.to_string().contains("not found"));
}

#[test]
fn test_mark_done() {
    let (ops, mut store) = setup();
    let todo = ops.create(&mut store, "quick-capture", "Do thing").expect("create");
    let done = ops.mark_done(&mut store, &todo.slug).expect("done");
    assert!(done.done);
}

#[test]
fn test_list_excludes_done_by_default() {
    let (ops, mut store) = setup();
    let todo = ops.create(&mut store, "quick-capture", "List test").expect("create");
    ops.mark_done(&mut store, &todo.slug).expect("done");
    let active = ops.list(&store, None, false, false);
    assert!(!active.iter().any(|t| t.slug == todo.slug));
}

#[test]
fn test_list_includes_done_when_requested() {
    let (ops, mut store) = setup();
    let todo = ops.create(&mut store, "quick-capture", "Include done").expect("create");
    ops.mark_done(&mut store, &todo.slug).expect("done");
    let all = ops.list(&store, None, true, false);
    assert!(all.iter().any(|t| t.slug == todo.slug));
}

#[test]
fn test_archive_and_restore() {
    let (ops, mut store) = setup();
    let todo = ops.create(&mut store, "quick-capture", "Archive me").expect("create");
    ops.archive(&mut store, &todo.slug).expect("archive");
    let active = ops.list(&store, None, true, false);
    assert!(!active.iter().any(|t| t.slug == todo.slug));
    ops.restore(&mut store, &todo.slug).expect("restore");
    let active = ops.list(&store, None, true, false);
    assert!(active.iter().any(|t| t.slug == todo.slug));
}

#[test]
fn todos_test_delete_requires_archived() {
    let (ops, mut store) = setup();
    let todo = ops.create(&mut store, "quick-capture", "Delete me").expect("create");
    let err = ops.delete(&mut store, &todo.slug).unwrap_err();
    assert!(err.to_string().contains("archived"));
}

#[test]
fn test_delete_archived_succeeds() {
    let (ops, mut store) = setup();
    let todo = ops.create(&mut store, "quick-capture", "Delete archived").expect("create");
    ops.archive(&mut store, &todo.slug).expect("archive");
    ops.delete(&mut store, &todo.slug).expect("delete");
    assert!(ops.get(&store, &todo.slug).is_none());
}

#[test]
fn test_mark_undone() {
    let (ops, mut store) = setup();
    let todo = ops.create(&mut store, "quick-capture", "Mark undone").expect("create");
    ops.mark_done(&mut store, &todo.slug).expect("mark done");
    let undone = ops.mark_undone(&mut store, &todo.slug).expect("mark undone");
    assert!(!undone.done);
}

#[test]
fn test_update_title() {
    let (ops, mut store) = setup();
    let todo = ops.create(&mut store, "quick-capture", "Old title").expect("create");
    let updated = ops.update_title(&mut store, &todo.slug, "New title").expect("update title");
    assert_eq!(updated.title, "New title");
}

#[test]
fn todo_slugs_get_suffix_on_collision() {
    let (ops, mut store) = setup();
    let a = ops.create(&mut store, "quick-capture", "Same").expect("first");
    let b = ops.create(&mut store, "quick-capture", "Same").expect("second");
    assert_eq!(a.slug, "quick-capture-todo-same");
    assert!(b.slug.starts_with("quick-capture-todo-same-"));
    assert_eq!(b.slug.len(), a.slug.len() + 5);
}

#[test]
fn todo_update_with_patch_sets_done() {
    let (ops, mut store) = setup();
    let todo = ops.create(&mut store, "quick-capture", "Patch me").expect("create");
    let patch = TodoPatch { title: None, done: Some(true), project_id: None };
    let updated = ops.update(&mut store, &todo.slug, patch).expect("update");
    assert!(updated.done);
    assert_eq!(updated.title, "Patch me");
}

#[test]
fn todo_move_to_unknown_project_fails() {
    let (ops, mut store) = setup();
    let todo = ops.create(&mut store, "quick-capture", "Stay").expect("create");
    let err = ops.move_project(&mut store, &todo.slug, "nowhere").unwrap_err();
    assert_eq!(err.to_string(), "project 'nowhere' not found");
}

#[test]
fn todo_missing_slug_is_not_found() {
    let (ops, mut store) = setup();
    let err = ops.mark_done(&mut store, "no-such-todo").unwrap_err();
    assert_eq!(err.to_string(), "todo 'no-such-todo' not found");
}
