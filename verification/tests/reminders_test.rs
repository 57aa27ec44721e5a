use scribe::domain::ReminderPatch;
use scribe::ops::{CreateReminder, ReminderOps};
use scribe::store::Store;

fn now() -> i64 {
    std::time::SystemTime::now()
        .duration_since(std::time::UNIX_EPOCH)
        .map(|d| d.as_secs() as i64)
        .unwrap_or(0)
}

fn future() -> i64 {
    now() + 3600
}

fn setup() -> (ReminderOps, Store) {
    (ReminderOps::new(), Store::new(now()))
}

fn request(project: &str, at: i64, message: Option<&str>) -> CreateReminder {
    CreateReminder {
        project_slug: project.to_owned(),
        task_slug: None,
        remind_at: at,
        message: message.map(|m| m.to_owned()),
        persistent: false,
    }
}

#[test]
fn test_create_reminder() {
    let (ops, mut store) = setup();
    let r = ops
        .create(&mut store, request("quick-capture", future(), Some("Deploy on Friday")))
        .expect("create");
    assert!(r.slug.starts_with("quick-capture-reminder-"));
    assert!(!r.fired);
}

#[test]
fn reminders_test_create_project_not_found_returns_error() {
    let (ops, mut store) = setup();
    let err = ops.create(&mut store, request("nonexistent", future(), None)).unwrap_err();
    assert!(err.to_string().contains("not found"));
}

#[test]
fn test_check_due_fires_past_reminders() {
    let (ops, mut store) = setup();
    ops.create(&mut store, request("quick-capture", now() - 3600, Some("Past")))
        .expect("create past reminder");
    let fired = ops.check_due(&mut store);
    assert_eq!(fired.len(), 1);
    assert!(fired[0].fired);
}

#[test]
fn reminders_test_delete_requires_archived() {
    let (ops, mut store) = setup();
    let r = ops
        .create(&mut store, request("quick-capture", future(), Some("Active")))
        .expect("create");
    let err = ops.delete(&mut store, &r.slug).unwrap_err();
    assert!(err.to_string().contains("archived"));
}

#[test]
fn test_update_changes_message() {
    let (ops, mut store) = setup();
    let r = ops
        .create(&mut store, request("quick-capture", future(), Some("Original")))
        .expect("create");
    let updated = ops
        .update(
            &mut store,
            &r.slug,
            ReminderPatch { remind_at: None, message: Some("Updated".to_owned()), persistent: None },
        )
        .expect("update");
    assert_eq!(updated.message.as_deref(), Some("Updated"));
}

#[test]
fn check_due_leaves_future_reminders_alone() {
    let (ops, mut store) = setup();
    let t = 1_000_000;
    ops.create(&mut store, request("quick-capture", t + 10, Some("Later"))).expect("create");
    ops.create(&mut store, request("quick-capture", t - 10, Some("Earlier"))).expect("create");
    let fired = ops.check_due_at(&mut store, t);
    assert_eq!(fired.len(), 1);
    assert_eq!(fired[0].message.as_deref(), Some("Earlier"));
    let again = ops.check_due_at(&mut store, t);
    assert!(again.is_empty());
    let later = ops.check_due_at(&mut store, t + 10);
    assert_eq!(later.len(), 1);
    assert_eq!(later[0].message.as_deref(), Some("Later"));
}

#[test]
fn reminder_slug_uses_message() {
    let (ops, mut store) = setup();
    let r = ops
        .create(&mut store, request("quick-capture", future(), Some("Call Bob")))
        .expect("create");
    assert_eq!(r.slug, "quick-capture-reminder-call-bob");
}

#[test]
fn reminder_slug_without_message_uses_stamp() {
    let (ops, mut store) = setup();
    let r = ops.create(&mut store, request("quick-capture", 1_774_967_400, None)).expect("create");
    assert_eq!(r.slug, "quick-capture-reminder-20260331-143000");
}

#[test]
fn archived_reminder_can_be_deleted() {
    let (ops, mut store) = setup();
    let r = ops
        .create(&mut store, request("quick-capture", future(), Some("Gone")))
        .expect("create");
    ops.archive(&mut store, &r.slug).expect("archive");
    ops.delete(&mut store, &r.slug).expect("delete");
    assert!(ops.get(&store, &r.slug).is_none());
}
