//! The quick-capture inbox: capturing thoughts, and processing them into
//! tasks, todos, project assignments or nothing.

use vstd::prelude::*;
use crate::clock::{now_unix, utc_stamp, utc_stamp_of};
use crate::domain::slug::{generate, slug_title};
use crate::domain::{
    CaptureItem, CaptureItemId, Project, TaskPriority, TaskStatus, Todo, TodoId,
};
use crate::error::{Entity, ScribeError};
use crate::ops::tasks::{task_slug_base, CreateTask, TaskOps};
use crate::ops::{fresh_slug_for, suffixes_taken, unique_slug};
use crate::store::table::{has_key, key_index, lookup};
use crate::store::{Record, Store};
use crate::text::{push_str, string_of, trim_chars, trimmed};

verus! {

/// What to do with a capture item when processing it.
#[derive(Debug, Clone)]
pub enum ProcessAction {
    /// Turn the item into a task in the given project.
    ConvertToTask {
        /// Destination project slug.
        project_slug: String,
        /// Task title; the item's body when `None`.
        title: Option<String>,
        /// Task priority; `Medium` when `None`.
        priority: Option<TaskPriority>,
    },
    /// Turn the item into a todo in the given project.
    ConvertToTodo {
        /// Destination project slug.
        project_slug: String,
        /// Todo title; the item's body when `None`.
        title: Option<String>,
    },
    /// Assign the item to a project without creating anything.
    AssignToProject {
        /// Destination project slug.
        project_slug: String,
    },
    /// Discard the item.
    Discard,
}

/// The slug a capture made at a time written as `stamp` starts from.
pub open spec fn capture_slug_base(stamp: Seq<char>) -> Seq<char> {
    "capture-"@ + stamp
}

/// Whether an item passes the list filter.
pub open spec fn capture_listed(c: CaptureItem, include_processed: bool) -> bool {
    include_processed || !c.processed
}

/// The capture list filter as a predicate.
pub open spec fn capture_filter(include_processed: bool) -> spec_fn(CaptureItem) -> bool {
    |c: CaptureItem| capture_listed(c, include_processed)
}

/// The item marked as processed.
pub open spec fn processed(c: CaptureItem) -> CaptureItem {
    CaptureItem { processed: true, ..c }
}

/// The project slug an action names, if any.
pub open spec fn action_project(a: ProcessAction) -> Option<Seq<char>> {
    match a {
        ProcessAction::ConvertToTask { project_slug, .. } => Some(project_slug@),
        ProcessAction::ConvertToTodo { project_slug, .. } => Some(project_slug@),
        ProcessAction::AssignToProject { project_slug } => Some(project_slug@),
        ProcessAction::Discard => None,
    }
}

/// The project an action names exists and is not archived.
pub open spec fn action_project_open(s: &Store, a: ProcessAction) -> bool {
    match action_project(a) {
        Some(p) => has_key(s.projects@, p) && lookup(s.projects@, p)->0.archived_at is None,
        None => true,
    }
}

/// The title an action gives the task or todo it creates.
pub open spec fn action_title(a: ProcessAction, body: Seq<char>) -> Seq<char> {
    match a {
        ProcessAction::ConvertToTask { title, .. } => match title { Some(t) => t@, None => body },
        ProcessAction::ConvertToTodo { title, .. } => match title { Some(t) => t@, None => body },
        _ => body,
    }
}

/// Inbox operations.
#[derive(Debug, Clone, Copy)]
pub struct InboxOps;

impl InboxOps {
    /// A handle for inbox operations.
    pub fn new() -> (r: InboxOps) {
        InboxOps
    }

    /// Captures `body` now; see [`InboxOps::capture_at`].
    pub fn capture(&self, store: &mut Store, body: &str) -> (r: Result<CaptureItem, ScribeError>)
        requires
            old(store).wf(),
        ensures
            final(store).wf(),
            trimmed(body@).len() == 0 ==> r == Err::<CaptureItem, ScribeError>(ScribeError::EmptyBody),
            r matches Ok(c) ==> {
                &&& c.id == CaptureItemId(old(store).captures.next())
                &&& c.body@ == trimmed(body@)
                &&& !c.processed
                &&& utc_stamp(c.created_at) is Some
                &&& fresh_slug_for(old(store).captures@, capture_slug_base(utc_stamp(c.created_at)->0), c.slug@)
                &&& final(store).captures@ == old(store).captures@.push(c)
                &&& final(store).captures.next() == old(store).captures.next() + 1
                &&& final(store).only_captures(old(store))
            },
            r matches Err(e) ==> *final(store) == *old(store),
            r matches Err(e) ==> e is EmptyBody || e is TimeOutOfRange || e is Slug || e is IdsExhausted,
    {
        let now = now_unix();
        self.capture_at(store, body, now)
    }

    /// Captures `body`, trimmed, as an unprocessed item created at `now`,
    /// with slug `capture-{YYYYMMDD}-{HHMMSS}` made unique. Fails on a body
    /// that is empty after trimming.
    pub fn capture_at(&self, store: &mut Store, body: &str, now: i64) -> (r: Result<CaptureItem, ScribeError>)
        requires
            old(store).wf(),
        ensures
            final(store).wf(),
            trimmed(body@).len() == 0 ==> r == Err::<CaptureItem, ScribeError>(ScribeError::EmptyBody),
            r is Ok ==> trimmed(body@).len() > 0 && utc_stamp(now) is Some,
            trimmed(body@).len() > 0 && utc_stamp(now) is Some && !has_key(
                old(store).captures@,
                capture_slug_base(utc_stamp(now)->0),
            ) && old(store).captures.next() < i64::MAX ==> r is Ok,
            r matches Ok(c) ==> {
                &&& c.id == CaptureItemId(old(store).captures.next())
                &&& fresh_slug_for(old(store).captures@, capture_slug_base(utc_stamp(now)->0), c.slug@)
                &&& c.body@ == trimmed(body@)
                &&& !c.processed
                &&& c.created_at == now
                &&& final(store).captures@ == old(store).captures@.push(c)
                &&& final(store).captures.next() == old(store).captures.next() + 1
                &&& final(store).only_captures(old(store))
            },
            r matches Err(e) ==> *final(store) == *old(store),
            r matches Err(e) ==> (e is TimeOutOfRange ==> utc_stamp(now) is None),
            r matches Err(e) ==> (e is Slug ==> has_key(old(store).captures@, capture_slug_base(utc_stamp(now)->0))
                && suffixes_taken(old(store).captures@, capture_slug_base(utc_stamp(now)->0))),
            r matches Err(e) ==> e is EmptyBody || e is TimeOutOfRange || e is Slug || e is IdsExhausted,
    {
        let body = trim_chars(body);
        if body.len() == 0 {
            return Err(ScribeError::EmptyBody);
        }
        let stamp = match utc_stamp_of(now) {
            Some(s) => s,
            None => {
                return Err(ScribeError::TimeOutOfRange);
            },
        };
        let mut base: Vec<char> = Vec::new();
        push_str(&mut base, "capture-");
        push_str(&mut base, stamp.as_str());
        let base = string_of(&base);
        let slug = match unique_slug(&store.captures, base.as_str()) {
            Ok(s) => s,
            Err(e) => {
                return Err(e);
            },
        };
        let id = store.captures.next_id();
        if id == i64::MAX {
            return Err(ScribeError::IdsExhausted);
        }
        let c = CaptureItem {
            id: CaptureItemId(id),
            slug,
            body: string_of(&body),
            processed: false,
            created_at: now,
        };
        store.captures.insert(c.duplicate());
        Ok(c)
    }

    /// Capture items, processed ones only when `include_processed`.
    pub fn list(&self, store: &Store, include_processed: bool) -> (r: Vec<CaptureItem>)
        requires
            store.wf(),
        ensures
            r@ == store.captures@.filter(capture_filter(include_processed)),
    {
        let keep = |c: &CaptureItem| -> (b: bool)
            ensures
                b == capture_listed(*c, include_processed),
            {
                include_processed || !c.processed
            };
        store.captures.select(keep, Ghost(capture_filter(include_processed)))
    }

    /// The capture item with slug `item_slug`, if any.
    pub fn get(&self, store: &Store, item_slug: &str) -> (r: Option<CaptureItem>)
        requires
            store.wf(),
        ensures
            r == lookup(store.captures@, item_slug@),
    {
        store.captures.get(item_slug)
    }

    /// Processes the capture item with slug `item_slug` by `action`, then
    /// marks it processed:
    /// - `ConvertToTask` creates a task (title defaulting to the body,
    ///   priority to `Medium`) in an open project;
    /// - `ConvertToTodo` creates a todo (title defaulting to the body) in an
    ///   open project;
    /// - `AssignToProject` only checks that the project is open;
    /// - `Discard` does nothing more.
    pub fn process(&self, store: &mut Store, item_slug: &str, action: ProcessAction) -> (r: Result<
        CaptureItem,
        ScribeError,
    >)
        requires
            old(store).wf(),
        ensures
            final(store).wf(),
            r is Ok ==> has_key(old(store).captures@, item_slug@) && action_project_open(old(store), action),
            !has_key(old(store).captures@, item_slug@) ==> (r matches Err(e) && e is NotFound),
            has_key(old(store).captures@, item_slug@) && action_project(action) is Some
                && !has_key(old(store).projects@, action_project(action)->0) ==> (r matches Err(e) && e is NotFound),
            has_key(old(store).captures@, item_slug@) && action_project(action) is Some
                && has_key(old(store).projects@, action_project(action)->0)
                && lookup(old(store).projects@, action_project(action)->0)->0.archived_at is Some
                ==> (r matches Err(e) && e is ProjectArchived),
            has_key(old(store).captures@, item_slug@) && (action is Discard || action is AssignToProject)
                && action_project_open(old(store), action) ==> r is Ok,
            has_key(old(store).captures@, item_slug@) && action is ConvertToTodo && action_project_open(
                old(store),
                action,
            ) && !has_key(
                old(store).todos@,
                action_project(action)->0 + "-todo-"@ + slug_title(action_title(
                    action,
                    lookup(old(store).captures@, item_slug@)->0.body@,
                )),
            ) && old(store).todos.next() < i64::MAX ==> r is Ok,
            has_key(old(store).captures@, item_slug@) && action is ConvertToTask && action_project_open(
                old(store),
                action,
            ) && trimmed(action_title(action, lookup(old(store).captures@, item_slug@)->0.body@)).len() == 0
                ==> r == Err::<CaptureItem, ScribeError>(ScribeError::EmptyTitle),
            has_key(old(store).captures@, item_slug@) && action is ConvertToTask && action_project_open(
                old(store),
                action,
            ) && trimmed(action_title(action, lookup(old(store).captures@, item_slug@)->0.body@)).len() > 0
                && !has_key(
                old(store).tasks@,
                task_slug_base(
                    action_project(action)->0,
                    trimmed(action_title(action, lookup(old(store).captures@, item_slug@)->0.body@)),
                ),
            ) && old(store).tasks.next() < i64::MAX ==> r is Ok,
            r matches Ok(c) ==> {
                let i = key_index(old(store).captures@, item_slug@);
                let item = old(store).captures@[i];
                let p = lookup(old(store).projects@, action_project(action)->0)->0;
                &&& c == processed(item)
                &&& final(store).captures@ == old(store).captures@.update(i, c)
                &&& final(store).projects == old(store).projects
                &&& final(store).entries == old(store).entries
                &&& final(store).reminders == old(store).reminders
                &&& final(store).notes == old(store).notes
                &&& final(store).links == old(store).links
                &&& (action is ConvertToTask ==> final(store).todos == old(store).todos && exists|t: crate::domain::Task| {
                    &&& final(store).tasks@ == old(store).tasks@.push(t)
                    &&& final(store).tasks.next() == old(store).tasks.next() + 1
                    &&& t.id == crate::domain::TaskId(old(store).tasks.next())
                    &&& fresh_slug_for(
                        old(store).tasks@,
                        task_slug_base(p.slug@, trimmed(action_title(action, item.body@))),
                        t.slug@,
                    )
                    &&& t.description is None && t.due_date is None && t.parent_id is None
                    &&& t.archived_at is None
                    &&& t.project_id == p.id
                    &&& t.title@ == trimmed(action_title(action, item.body@))
                    &&& t.status == TaskStatus::Todo
                    &&& t.priority == match action->ConvertToTask_priority {
                        Some(q) => q,
                        None => TaskPriority::Medium,
                    }
                })
                &&& (action is ConvertToTodo ==> final(store).tasks == old(store).tasks && exists|t: Todo| {
                    &&& final(store).todos@ == old(store).todos@.push(t)
                    &&& final(store).todos.next() == old(store).todos.next() + 1
                    &&& t.id == TodoId(old(store).todos.next())
                    &&& t.archived_at is None
                    &&& t.project_id == p.id
                    &&& t.title@ == action_title(action, item.body@)
                    &&& !t.done
                    &&& fresh_slug_for(old(store).todos@, p.slug@ + "-todo-"@ + slug_title(t.title@), t.slug@)
                })
                &&& (action is AssignToProject || action is Discard ==> final(store).tasks == old(store).tasks
                    && final(store).todos == old(store).todos)
            },
            r matches Err(e) ==> *final(store) == *old(store),
    {
        let i = match store.captures.find(item_slug) {
            Some(i) => i,
            None => {
                return Err(ScribeError::NotFound { entity: Entity::CaptureItem, slug: item_slug.to_owned() });
            },
        };
        proof {
            crate::store::table::lemma_key_index(store.captures@, item_slug@, i as int);
        }
        let item = store.captures.rows()[i].duplicate();
        let ghost mut made_task: Option<crate::domain::Task> = None;
        let ghost mut made_todo: Option<Todo> = None;
        match action {
            ProcessAction::ConvertToTask { project_slug, title, priority } => {
                let project = match open_project(store, project_slug) {
                    Ok(p) => p,
                    Err(e) => {
                        return Err(e);
                    },
                };
                let task_title = match title {
                    Some(t) => t,
                    None => item.body.clone(),
                };
                let params = CreateTask {
                    project_slug: project.slug,
                    project_id: project.id,
                    title: task_title,
                    description: None,
                    status: TaskStatus::Todo,
                    priority: match priority {
                        Some(q) => q,
                        None => TaskPriority::Medium,
                    },
                    due_date: None,
                    parent_id: None,
                };
                let ghost tasks_before = store.tasks@;
                match TaskOps::new().create_task(store, params) {
                    Ok(t) => {
                        proof {
                            made_task = Some(t);
                        }
                    },
                    Err(e) => {
                        return Err(e);
                    },
                }
            },
            ProcessAction::ConvertToTodo { project_slug, title } => {
                let project = match open_project(store, project_slug) {
                    Ok(p) => p,
                    Err(e) => {
                        return Err(e);
                    },
                };
                let todo_title = match title {
                    Some(t) => t,
                    None => item.body.clone(),
                };
                let ghost todos_before = store.todos@;
                match insert_todo(store, &project, todo_title) {
                    Ok(t) => {
                        proof {
                            made_todo = Some(t);
                        }
                    },
                    Err(e) => {
                        return Err(e);
                    },
                }
            },
            ProcessAction::AssignToProject { project_slug } => {
                match open_project(store, project_slug) {
                    Ok(_) => {},
                    Err(e) => {
                        return Err(e);
                    },
                }
            },
            ProcessAction::Discard => {},
        }
        let c = CaptureItem { processed: true, ..item };
        proof {
            assert(c.key() == store.captures@[i as int].key());
            assert forall|j: int| 0 <= j < store.captures@.len() && j != i implies #[trigger] store.captures@[j].key() != c.key() by {
                assert(store.captures@[j].key() != store.captures@[i as int].key());
            }
        }
        store.captures.replace(i, c.duplicate());
        proof {
            if action is ConvertToTask {
                assert(store.tasks@ == old(store).tasks@.push(made_task->0));
            }
            if action is ConvertToTodo {
                assert(store.todos@ == old(store).todos@.push(made_todo->0));
            }
        }
        Ok(c)
    }
}

/// The project with slug `slug`, which must exist and not be archived.
fn open_project(store: &Store, slug: String) -> (r: Result<Project, ScribeError>)
    requires
        store.wf(),
    ensures
        r is Ok <==> has_key(store.projects@, slug@) && lookup(store.projects@, slug@)->0.archived_at is None,
        r matches Ok(p) ==> p == lookup(store.projects@, slug@)->0,
        r matches Err(e) ==> (e is NotFound <==> !has_key(store.projects@, slug@)),
        r matches Err(e) ==> e is NotFound || e is ProjectArchived,
{
    let project = match store.projects.get(slug.as_str()) {
        Some(p) => p,
        None => {
            return Err(ScribeError::NotFound { entity: Entity::Project, slug });
        },
    };
    if project.archived_at.is_some() {
        return Err(ScribeError::ProjectArchived { slug, adding: None });
    }
    Ok(project)
}

/// Inserts a todo titled `title` into `project`, with a slug made unique
/// from `{project_slug}-todo-{title_slug}`.
fn insert_todo(store: &mut Store, project: &Project, title: String) -> (r: Result<Todo, ScribeError>)
    requires
        old(store).wf(),
    ensures
        final(store).wf(),
        r matches Ok(t) ==> {
            &&& t.id == TodoId(old(store).todos.next())
            &&& fresh_slug_for(old(store).todos@, project.slug@ + "-todo-"@ + slug_title(title@), t.slug@)
            &&& t.project_id == project.id
            &&& t.title == title
            &&& !t.done
            &&& t.archived_at is None
            &&& final(store).todos@ == old(store).todos@.push(t)
            &&& final(store).todos.next() == old(store).todos.next() + 1
            &&& final(store).only_todos(old(store))
        },
        r matches Err(e) ==> *final(store) == *old(store),
        !has_key(old(store).todos@, project.slug@ + "-todo-"@ + slug_title(title@)) && old(store).todos.next()
            < i64::MAX ==> r is Ok,
{
    let mut prefix: Vec<char> = Vec::new();
    push_str(&mut prefix, project.slug.as_str());
    push_str(&mut prefix, "-todo-");
    let prefix = string_of(&prefix);
    let base = generate(prefix.as_str(), title.as_str());
    let slug = match unique_slug(&store.todos, base.as_str()) {
        Ok(s) => s,
        Err(e) => {
            return Err(e);
        },
    };
    let id = store.todos.next_id();
    if id == i64::MAX {
        return Err(ScribeError::IdsExhausted);
    }
    let now = now_unix();
    let t = Todo {
        id: TodoId(id),
        slug,
        project_id: project.id,
        title,
        done: false,
        archived_at: None,
        created_at: now,
        updated_at: now,
    };
    store.todos.insert(t.duplicate());
    Ok(t)
}

} // verus!
