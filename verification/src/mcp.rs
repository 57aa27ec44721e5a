//! The assistant-facing tool interface: each tool's parameters, and running
//! a tool against the store. Framing requests and writing replies as JSON
//! happens outside the library.

use vstd::prelude::*;
use crate::datetime::{chrono_date, instant_named, instant_of, parse_naive_date, TimeReading};
use crate::domain::project::ProjectStatus;
use crate::domain::task::{task_priority_name, task_status_name, unknown_task_priority, unknown_task_status};
use crate::domain::{
    CaptureItem, CivilDate, NewProject, Project, ProjectId, Reminder, Task, TaskPatch, TaskPriority, TaskStatus,
    TimeEntry, Todo,
};
use crate::error::{Entity, ScribeError};
use crate::ops::inbox::{action_project, capture_filter, processed, InboxOps, ProcessAction};
use crate::ops::projects::{new_project_row, project_filter, ProjectOps};
use crate::ops::reminders::{reminder_filter, CreateReminder, ReminderOps};
use crate::ops::tasks::{patched_task, task_filter, CreateTask, TaskOps};
use crate::ops::todos::{todo_filter, TodoOps};
use crate::ops::tracker::{first_running, has_running, report_filter, with_duration, StartTimer, TrackerOps};
use crate::store::table::{cascade, has_key, key_index, lookup};
use crate::store::{Archivable, Store};
use crate::text::{push_str, str_eq, string_of, trimmed};

verus! {

/// Parameters for `project_create`.
#[derive(Debug, Clone)]
pub struct ProjectCreateParams {
    /// Unique kebab-case project slug.
    pub slug: String,
    /// Human-readable project name.
    pub name: String,
    /// Optional free-text description.
    pub description: Option<String>,
}

/// Parameters for `project_archive` / `project_restore`.
#[derive(Debug, Clone)]
pub struct ProjectSlugParam {
    /// Project slug.
    pub slug: String,
}

/// Parameters for `task_list`.
#[derive(Debug, Clone)]
pub struct TaskListParams {
    /// Filter to a specific project slug.
    pub project_slug: Option<String>,
    /// Filter by status: `"todo"`, `"in_progress"`, `"done"`, `"cancelled"`.
    pub status: Option<String>,
}

/// Parameters for `task_create`.
#[derive(Debug, Clone)]
pub struct TaskCreateParams {
    /// Task title.
    pub title: String,
    /// Project slug; defaults to `quick-capture` if omitted.
    pub project_slug: Option<String>,
    /// Priority: `"low"`, `"medium"` (default), `"high"`, `"urgent"`.
    pub priority: Option<String>,
    /// Due date as `YYYY-MM-DD`.
    pub due_date: Option<String>,
}

/// Parameters for `task_done` / `task_archive`.
#[derive(Debug, Clone)]
pub struct TaskSlugParam {
    /// Task slug.
    pub slug: String,
}

/// Parameters for `todo_list`.
#[derive(Debug, Clone)]
pub struct TodoListParams {
    /// Filter to a specific project slug.
    pub project_slug: Option<String>,
}

/// Parameters for `todo_create`.
#[derive(Debug, Clone)]
pub struct TodoCreateParams {
    /// Todo title.
    pub title: String,
    /// Project slug; defaults to `quick-capture` if omitted.
    pub project_slug: Option<String>,
}

/// Parameters for `todo_done` / `todo_archive`.
#[derive(Debug, Clone)]
pub struct TodoSlugParam {
    /// Todo slug.
    pub slug: String,
}

/// Parameters for `timer_start`.
#[derive(Debug, Clone)]
pub struct TimerStartParams {
    /// Project slug; defaults to `quick-capture`.
    pub project_slug: Option<String>,
    /// Optional linked task slug.
    pub task_slug: Option<String>,
    /// Optional free-text note.
    pub note: Option<String>,
}

/// Parameters for `track_report`.
#[derive(Debug, Clone)]
pub struct TrackReportParams {
    /// Filter by project slug.
    pub project_slug: Option<String>,
    /// Time window: `"today"`, `"week"`, or omit for all-time.
    pub period: Option<String>,
}

/// Parameters for `capture`.
#[derive(Debug, Clone)]
pub struct CaptureParams {
    /// Text body to capture.
    pub body: String,
}

/// Parameters for `inbox_process`.
#[derive(Debug, Clone)]
pub struct InboxProcessParams {
    /// Capture item slug.
    pub slug: String,
    /// Action: `"task"`, `"todo"`, `"assign"`, or `"discard"`.
    pub action: String,
    /// Destination project slug (required for `task`, `todo`, `assign`).
    pub project_slug: Option<String>,
    /// Optional title override.
    pub title: Option<String>,
}

/// Parameters for `reminder_list`.
#[derive(Debug, Clone)]
pub struct ReminderListParams {
    /// Filter to a specific project slug.
    pub project_slug: Option<String>,
}

/// Parameters for `reminder_create`.
#[derive(Debug, Clone)]
pub struct ReminderCreateParams {
    /// Owning project slug.
    pub project_slug: String,
    /// Fire datetime, in the same formats as the command line's `--at`.
    pub at: String,
    /// Optional linked task slug.
    pub task_slug: Option<String>,
    /// Optional message text.
    pub message: Option<String>,
    /// When `true`, the notification waits until the user dismisses it.
    pub persistent: Option<bool>,
}

/// Parameters for `reminder_archive`.
#[derive(Debug, Clone)]
pub struct ReminderSlugParam {
    /// Reminder slug.
    pub slug: String,
}
/// The project slug a request names, or `quick-capture` when it names none.
pub open spec fn slug_or_inbox(o: Option<String>) -> Seq<char> {
    match o {
        Some(s) => s@,
        None => "quick-capture"@,
    }
}

/// `slug_or_inbox` as an owned string.
fn slug_or_inbox_string(o: &Option<String>) -> (r: String)
    ensures
        r@ == slug_or_inbox(*o),
{
    match o {
        Some(s) => s.clone(),
        None => "quick-capture".to_owned(),
    }
}

/// The id of the project an optional filter names: none without a filter,
/// the project's id when it exists.
pub open spec fn filter_project(s: &Store, o: Option<String>) -> Option<ProjectId> {
    match o {
        Some(slug) => Some(lookup(s.projects@, slug@)->0.id),
        None => None,
    }
}

/// The filter names no project, or one that exists.
pub open spec fn filter_project_exists(s: &Store, o: Option<String>) -> bool {
    match o {
        Some(slug) => has_key(s.projects@, slug@),
        None => true,
    }
}

/// Resolves an optional project filter to the project's id.
fn project_id_for(ops: &ProjectOps, store: &Store, o: &Option<String>) -> (r: Result<Option<ProjectId>, ScribeError>)
    requires
        store.wf(),
    ensures
        r is Ok <==> filter_project_exists(store, *o),
        r matches Ok(x) ==> x == filter_project(store, *o),
        r matches Err(e) ==> e == (ScribeError::NotFound { entity: Entity::Project, slug: o->0 }),
{
    match o {
        Some(slug) => match ops.get_project(store, slug.as_str()) {
            Some(p) => Ok(Some(p.id)),
            None => Err(ScribeError::NotFound { entity: Entity::Project, slug: slug.clone() }),
        },
        None => Ok(None),
    }
}

/// `project_list`: every unarchived project.
pub fn project_list(store: &Store) -> (r: Vec<Project>)
    requires
        store.wf(),
    ensures
        r@ == store.projects@.filter(project_filter(None, false)),
{
    ProjectOps::new().list_projects(store, None, false)
}

/// The project a `project_create` request describes.
pub open spec fn requested_project(p: ProjectCreateParams) -> NewProject {
    NewProject { slug: p.slug, name: p.name, description: p.description, status: ProjectStatus::Active }
}

/// `project_create`: a new active project. Fails when the slug is taken.
pub fn project_create(store: &mut Store, p: ProjectCreateParams) -> (r: Result<Project, ScribeError>)
    requires
        old(store).wf(),
    ensures
        final(store).wf(),
        r is Ok <==> !has_key(old(store).projects@, p.slug@) && old(store).projects.next() < i64::MAX,
        r matches Ok(x) ==> {
            &&& x == new_project_row(requested_project(p), old(store).projects.next(), x.created_at)
            &&& final(store).projects@ == old(store).projects@.push(x)
            &&& final(store).projects.next() == old(store).projects.next() + 1
            &&& final(store).only_projects(old(store))
        },
        r matches Err(e) ==> *final(store) == *old(store),
        r matches Err(e) ==> (e == (ScribeError::DuplicateSlug { entity: Entity::Project, slug: p.slug })
            <==> has_key(old(store).projects@, p.slug@)),
{
    let np = NewProject { slug: p.slug, name: p.name, description: p.description, status: ProjectStatus::Active };
    ProjectOps::new().create_project(store, np)
}

/// `project_archive`: archives a project with everything it owns.
pub fn project_archive(store: &mut Store, p: ProjectSlugParam) -> (r: Result<Project, ScribeError>)
    requires
        old(store).wf(),
    ensures
        final(store).wf(),
        r is Ok <==> has_key(old(store).projects@, p.slug@) && !lookup(old(store).projects@, p.slug@)->0.is_reserved,
        r matches Ok(x) ==> {
            let i = key_index(old(store).projects@, p.slug@);
            let t = x.updated_at;
            let pid = old(store).projects@[i].id;
            &&& x == old(store).projects@[i].archived_as(Some(t), t)
            &&& final(store).projects@ == old(store).projects@.update(i, x)
            &&& final(store).tasks@ == cascade(old(store).tasks@, pid, t)
            &&& final(store).todos@ == cascade(old(store).todos@, pid, t)
            &&& final(store).entries@ == cascade(old(store).entries@, pid, t)
            &&& final(store).reminders@ == cascade(old(store).reminders@, pid, t)
        },
        r matches Err(e) ==> *final(store) == *old(store),
        r matches Err(e) ==> (e is NotFound <==> !has_key(old(store).projects@, p.slug@)),
{
    ProjectOps::new().archive_project(store, p.slug.as_str())
}

/// `project_restore`: restores an archived project.
pub fn project_restore(store: &mut Store, p: ProjectSlugParam) -> (r: Result<Project, ScribeError>)
    requires
        old(store).wf(),
    ensures
        final(store).wf(),
        r is Ok <==> has_key(old(store).projects@, p.slug@),
        r matches Ok(x) ==> {
            let i = key_index(old(store).projects@, p.slug@);
            &&& x == old(store).projects@[i].archived_as(None, x.updated_at)
            &&& final(store).projects@ == old(store).projects@.update(i, x)
            &&& final(store).only_projects(old(store))
        },
        r matches Err(e) ==> *final(store) == *old(store) && e is NotFound,
{
    ProjectOps::new().restore_project(store, p.slug.as_str())
}

/// The status an optional status filter names: `Ok(None)` without one,
/// `Ok(Some(st))` for the status named, the message otherwise.
pub open spec fn status_filter_named(o: Option<String>, st: Option<TaskStatus>) -> bool {
    match (o, st) {
        (None, None) => true,
        (Some(s), Some(x)) => task_status_name(x) == s@,
        _ => false,
    }
}

/// Some status has the name `s`.
pub open spec fn names_status(s: Seq<char>) -> bool {
    exists|x: TaskStatus| #[trigger] task_status_name(x) == s
}

/// `task_list`: unarchived tasks, of one project and of one status when
/// asked. Fails on an unknown status, then on an unknown project.
pub fn task_list(store: &Store, p: TaskListParams) -> (r: Result<Vec<Task>, ScribeError>)
    requires
        store.wf(),
    ensures
        (p.status matches Some(s) && !names_status(s@)) ==> (r matches Err(e) && e is Input
            && e->message@ == unknown_task_status(p.status->0@)),
        (p.status matches Some(s) ==> names_status(s@)) && !filter_project_exists(store, p.project_slug) ==> (
            r matches Err(e) && e == (ScribeError::NotFound { entity: Entity::Project, slug: p.project_slug->0 })),
        r is Ok <==> (p.status matches Some(s) ==> names_status(s@)) && filter_project_exists(store, p.project_slug),
        r matches Ok(v) ==> exists|st: Option<TaskStatus>|
            status_filter_named(p.status, st) && v@ == store.tasks@.filter(
                task_filter(filter_project(store, p.project_slug), st, None, false),
            ),
{
    let status = match &p.status {
        Some(s) => match TaskStatus::parse(s.as_str()) {
            Ok(st) => Some(st),
            Err(m) => {
                return Err(ScribeError::Input { message: m });
            },
        },
        None => None,
    };
    let project_id = match project_id_for(&ProjectOps::new(), store, &p.project_slug) {
        Ok(x) => x,
        Err(e) => {
            return Err(e);
        },
    };
    let v = TaskOps::new().list_tasks(store, project_id, status, None, false);
    assert(status_filter_named(p.status, status));
    Ok(v)
}

/// Some priority has the name `s`.
pub open spec fn names_priority(s: Seq<char>) -> bool {
    exists|x: TaskPriority| #[trigger] task_priority_name(x) == s
}

/// The priority a request asks for: the one named, or `Medium` when it
/// names none.
pub open spec fn priority_named(o: Option<String>, pr: TaskPriority) -> bool {
    match o {
        Some(s) => task_priority_name(pr) == s@,
        None => pr == TaskPriority::Medium,
    }
}

/// The request names no priority, or a known one.
pub open spec fn priority_ok(o: Option<String>) -> bool {
    match o {
        Some(s) => names_priority(s@),
        None => true,
    }
}

/// A due date as `task_create` reads it: `%Y-%m-%d`, or the message naming
/// the text and chrono's complaint.
pub open spec fn tool_due_date(s: Seq<char>) -> Result<CivilDate, Seq<char>> {
    match chrono_date(s, "%Y-%m-%d"@) {
        Ok(d) => Ok(d),
        Err(e) => Err("invalid due date '"@ + s + "': "@ + e),
    }
}

/// The request names no due date, or one that reads.
pub open spec fn due_ok(o: Option<String>) -> bool {
    match o {
        Some(d) => tool_due_date(d@) is Ok,
        None => true,
    }
}

/// The due date a request asks for.
pub open spec fn due_named(o: Option<String>) -> Option<CivilDate> {
    match o {
        Some(d) => Some(tool_due_date(d@)->Ok_0),
        None => None,
    }
}

/// Reads an optional due date for `task_create`.
fn read_due(o: &Option<String>) -> (r: Result<Option<CivilDate>, ScribeError>)
    ensures
        r is Ok <==> due_ok(*o),
        r matches Ok(d) ==> d == due_named(*o),
        r matches Err(e) ==> e is Input && tool_due_date(o->0@) == Err::<CivilDate, Seq<char>>(e->message@),
{
    match o {
        Some(d) => match parse_naive_date(d.as_str(), "%Y-%m-%d") {
            Ok(x) => Ok(Some(x)),
            Err(e) => {
                let mut out: Vec<char> = Vec::new();
                push_str(&mut out, "invalid due date '");
                push_str(&mut out, d.as_str());
                push_str(&mut out, "': ");
                push_str(&mut out, e.as_str());
                proof {
                    reveal_strlit("%Y-%m-%d");
                }
                Err(ScribeError::Input { message: string_of(&out) })
            },
        },
        None => Ok(None),
    }
}

/// `task_create`: a new task to do, in the named project or
/// `quick-capture`, with the named priority (`Medium` by default) and due
/// date. Fails on an unknown project, then an unknown priority, then a due
/// date that does not read, then as creating a task fails.
pub fn task_create(store: &mut Store, p: TaskCreateParams) -> (r: Result<Task, ScribeError>)
    requires
        old(store).wf(),
    ensures
        final(store).wf(),
        r matches Err(e) ==> *final(store) == *old(store),
        !has_key(old(store).projects@, slug_or_inbox(p.project_slug)) ==> (r matches Err(e) && e == (
            ScribeError::NotFound { entity: Entity::Project, slug: e->NotFound_slug }) && e->NotFound_slug@
            == slug_or_inbox(p.project_slug)),
        has_key(old(store).projects@, slug_or_inbox(p.project_slug)) && !priority_ok(p.priority) ==> (
            r matches Err(e) && e is Input && e->message@ == unknown_task_priority(p.priority->0@)),
        has_key(old(store).projects@, slug_or_inbox(p.project_slug)) && priority_ok(p.priority) && !due_ok(
            p.due_date,
        ) ==> (r matches Err(e) && e is Input && tool_due_date(p.due_date->0@) == Err::<CivilDate, Seq<char>>(
            e->message@,
        )),
        r is Ok ==> priority_ok(p.priority) && due_ok(p.due_date) && trimmed(p.title@).len() > 0,
        has_key(old(store).projects@, slug_or_inbox(p.project_slug)) && priority_ok(p.priority) && due_ok(
            p.due_date,
        ) && trimmed(p.title@).len() > 0 && lookup(old(store).projects@, slug_or_inbox(p.project_slug))->0.archived_at
            is None && !has_key(
            old(store).tasks@,
            crate::ops::tasks::task_slug_base(slug_or_inbox(p.project_slug), trimmed(p.title@)),
        ) && old(store).tasks.next() < i64::MAX ==> r is Ok,
        r matches Ok(t) ==> {
            &&& t.project_id == lookup(old(store).projects@, slug_or_inbox(p.project_slug))->0.id
            &&& t.title@ == trimmed(p.title@)
            &&& t.description is None
            &&& t.status == TaskStatus::Todo
            &&& priority_named(p.priority, t.priority)
            &&& t.due_date == due_named(p.due_date)
            &&& t.parent_id is None
            &&& t.archived_at is None
            &&& final(store).tasks@ == old(store).tasks@.push(t)
            &&& final(store).tasks.next() == old(store).tasks.next() + 1
            &&& final(store).only_tasks(old(store))
        },
{
    let project_slug = slug_or_inbox_string(&p.project_slug);
    let project = match ProjectOps::new().get_project(store, project_slug.as_str()) {
        Some(x) => x,
        None => {
            return Err(ScribeError::NotFound { entity: Entity::Project, slug: project_slug });
        },
    };
    let priority = match &p.priority {
        Some(s) => match TaskPriority::parse(s.as_str()) {
            Ok(x) => x,
            Err(m) => {
                return Err(ScribeError::Input { message: m });
            },
        },
        None => TaskPriority::Medium,
    };
    let due_date = match read_due(&p.due_date) {
        Ok(d) => d,
        Err(e) => {
            return Err(e);
        },
    };
    proof {
        crate::store::table::lemma_key_index(store.projects@, project_slug@, key_index(store.projects@, project_slug@));
    }
    let params = CreateTask {
        project_slug: project.slug.clone(),
        project_id: project.id,
        title: p.title,
        description: None,
        status: TaskStatus::Todo,
        priority,
        due_date,
        parent_id: None,
    };
    TaskOps::new().create_task(store, params)
}

/// `task_done`: marks a task done.
pub fn task_done(store: &mut Store, p: TaskSlugParam) -> (r: Result<Task, ScribeError>)
    requires
        old(store).wf(),
    ensures
        final(store).wf(),
        r is Ok <==> has_key(old(store).tasks@, p.slug@),
        r matches Ok(t) ==> {
            let i = key_index(old(store).tasks@, p.slug@);
            &&& t == patched_task(old(store).tasks@[i], TaskPatch::done_patch(), t.updated_at)
            &&& t.status == TaskStatus::Done
            &&& final(store).tasks@ == old(store).tasks@.update(i, t)
            &&& final(store).only_tasks(old(store))
        },
        r matches Err(e) ==> *final(store) == *old(store) && e is NotFound,
{
    TaskOps::new().mark_done(store, p.slug.as_str())
}

/// `task_archive`: archives a task.
pub fn task_archive(store: &mut Store, p: TaskSlugParam) -> (r: Result<Task, ScribeError>)
    requires
        old(store).wf(),
    ensures
        final(store).wf(),
        r is Ok <==> has_key(old(store).tasks@, p.slug@),
        r matches Ok(t) ==> {
            let i = key_index(old(store).tasks@, p.slug@);
            &&& t == old(store).tasks@[i].archived_as(Some(t.updated_at), t.updated_at)
            &&& final(store).tasks@ == old(store).tasks@.update(i, t)
            &&& final(store).only_tasks(old(store))
        },
        r matches Err(e) ==> *final(store) == *old(store) && e is NotFound,
{
    TaskOps::new().archive_task(store, p.slug.as_str())
}

/// `todo_list`: unarchived todos not done, of one project when asked.
pub fn todo_list(store: &Store, p: TodoListParams) -> (r: Result<Vec<Todo>, ScribeError>)
    requires
        store.wf(),
    ensures
        r is Ok <==> filter_project_exists(store, p.project_slug),
        r matches Ok(v) ==> v@ == store.todos@.filter(todo_filter(filter_project(store, p.project_slug), false, false)),
        r matches Err(e) ==> e == (ScribeError::NotFound { entity: Entity::Project, slug: p.project_slug->0 }),
{
    let project_id = match project_id_for(&ProjectOps::new(), store, &p.project_slug) {
        Ok(x) => x,
        Err(e) => {
            return Err(e);
        },
    };
    Ok(TodoOps::new().list(store, project_id, false, false))
}

/// `todo_create`: a new todo in the named project or `quick-capture`.
pub fn todo_create(store: &mut Store, p: TodoCreateParams) -> (r: Result<Todo, ScribeError>)
    requires
        old(store).wf(),
    ensures
        final(store).wf(),
        r is Ok ==> crate::ops::todos::valid_todo_request(old(store), slug_or_inbox(p.project_slug), p.title@),
        crate::ops::todos::valid_todo_request(old(store), slug_or_inbox(p.project_slug), p.title@) && !has_key(
            old(store).todos@,
            crate::ops::todos::todo_slug_base(slug_or_inbox(p.project_slug), p.title@),
        ) && old(store).todos.next() < i64::MAX ==> r is Ok,
        r matches Ok(t) ==> {
            &&& t.project_id == lookup(old(store).projects@, slug_or_inbox(p.project_slug))->0.id
            &&& t.title@ == p.title@
            &&& !t.done
            &&& t.archived_at is None
            &&& final(store).todos@ == old(store).todos@.push(t)
            &&& final(store).todos.next() == old(store).todos.next() + 1
            &&& final(store).only_todos(old(store))
        },
        r matches Err(e) ==> *final(store) == *old(store),
        r matches Err(e) ==> (e is NotFound <==> !has_key(old(store).projects@, slug_or_inbox(p.project_slug))),
{
    let project_slug = slug_or_inbox_string(&p.project_slug);
    TodoOps::new().create(store, project_slug.as_str(), p.title.as_str())
}

/// `todo_done`: marks a todo done.
pub fn todo_done(store: &mut Store, p: TodoSlugParam) -> (r: Result<Todo, ScribeError>)
    requires
        old(store).wf(),
    ensures
        crate::ops::todos::todo_update_done(
            old(store),
            final(store),
            p.slug@,
            crate::domain::TodoPatch::spec_with_done(true),
            r,
        ),
        r matches Ok(t) ==> t.done,
{
    TodoOps::new().mark_done(store, p.slug.as_str())
}

/// `todo_archive`: archives a todo.
pub fn todo_archive(store: &mut Store, p: TodoSlugParam) -> (r: Result<Todo, ScribeError>)
    requires
        old(store).wf(),
    ensures
        final(store).wf(),
        r is Ok <==> has_key(old(store).todos@, p.slug@),
        r matches Ok(t) ==> {
            let i = key_index(old(store).todos@, p.slug@);
            &&& t == old(store).todos@[i].archived_as(Some(t.updated_at), t.updated_at)
            &&& final(store).todos@ == old(store).todos@.update(i, t)
            &&& final(store).only_todos(old(store))
        },
        r matches Err(e) ==> *final(store) == *old(store) && e is NotFound,
{
    TodoOps::new().archive(store, p.slug.as_str())
}

/// `timer_start`: starts a timer in the named project or `quick-capture`,
/// linked to the named task. Fails on a missing or archived project, then
/// a missing task, then when a timer is running.
pub fn timer_start(store: &mut Store, p: TimerStartParams) -> (r: Result<TimeEntry, ScribeError>)
    requires
        old(store).wf(),
    ensures
        final(store).wf(),
        r matches Err(e) ==> *final(store) == *old(store),
        !has_key(old(store).projects@, slug_or_inbox(p.project_slug)) ==> (r matches Err(e) && e == (
            ScribeError::NotFound { entity: Entity::Project, slug: e->NotFound_slug }) && e->NotFound_slug@
            == slug_or_inbox(p.project_slug)),
        r is Ok ==> {
            &&& has_key(old(store).projects@, slug_or_inbox(p.project_slug))
            &&& lookup(old(store).projects@, slug_or_inbox(p.project_slug))->0.archived_at is None
            &&& (p.task_slug matches Some(t) ==> has_key(old(store).tasks@, t@))
            &&& !has_running(old(store).entries@)
        },
        has_key(old(store).projects@, slug_or_inbox(p.project_slug)) && lookup(
            old(store).projects@,
            slug_or_inbox(p.project_slug),
        )->0.archived_at is None && (p.task_slug matches Some(t) && !has_key(old(store).tasks@, t@)) ==> (
            r matches Err(e) && e == (ScribeError::NotFound { entity: Entity::Task, slug: p.task_slug->0 })),
        has_key(old(store).projects@, slug_or_inbox(p.project_slug)) && lookup(
            old(store).projects@,
            slug_or_inbox(p.project_slug),
        )->0.archived_at is None && (p.task_slug matches Some(t) ==> has_key(old(store).tasks@, t@))
            && has_running(old(store).entries@) ==> (r matches Err(e) && e is TimerRunning),
        r matches Ok(e) ==> {
            &&& e.project_id == lookup(old(store).projects@, slug_or_inbox(p.project_slug))->0.id
            &&& e.task_id == match p.task_slug {
                Some(t) => Some(lookup(old(store).tasks@, t@)->0.id),
                None => None,
            }
            &&& e.note == p.note
            &&& e.ended_at is None
            &&& e.archived_at is None
            &&& final(store).entries@ == old(store).entries@.push(e)
            &&& final(store).entries.next() == old(store).entries.next() + 1
            &&& final(store).only_entries(old(store))
        },
{
    let tracker = TrackerOps::new();
    let project_slug = slug_or_inbox_string(&p.project_slug);
    let (slug, project_id) = match tracker.resolve_project(store, project_slug.as_str()) {
        Ok(x) => x,
        Err(e) => {
            return Err(e);
        },
    };
    let task_id = match &p.task_slug {
        Some(ts) => match TaskOps::new().get_task(store, ts.as_str()) {
            Some(t) => Some(t.id),
            None => {
                return Err(ScribeError::NotFound { entity: Entity::Task, slug: ts.clone() });
            },
        },
        None => None,
    };
    tracker.start_timer(store, StartTimer { project_slug: slug, project_id, task_id, note: p.note })
}

/// `timer_stop`: stops the running timer now.
pub fn timer_stop(store: &mut Store) -> (r: Result<TimeEntry, ScribeError>)
    requires
        old(store).wf(),
    ensures
        final(store).wf(),
        r is Ok <==> has_running(old(store).entries@),
        r matches Ok(e) ==> {
            let i = first_running(old(store).entries@);
            &&& e == (TimeEntry { ended_at: e.ended_at, ..old(store).entries@[i] })
            &&& e.ended_at is Some
            &&& final(store).entries@ == old(store).entries@.update(i, e)
            &&& final(store).only_entries(old(store))
        },
        r matches Err(e) ==> *final(store) == *old(store) && e is NoTimer,
{
    TrackerOps::new().stop_timer(store)
}

/// `timer_status`: the running timer and the seconds it has run.
pub fn timer_status(store: &Store) -> (r: Option<(TimeEntry, i64)>)
    requires
        store.wf(),
    ensures
        r is Some <==> has_running(store.entries@),
        r matches Some(x) ==> x.0 == store.entries@[first_running(store.entries@)],
{
    TrackerOps::new().timer_status(store)
}

/// The window a `track_report` period asks for at `now`.
pub open spec fn period_text(o: Option<String>) -> Option<Seq<char>> {
    match o {
        Some(s) => Some(s@),
        None => None,
    }
}

/// What `track_report` gives at the instant `now`: `NotFound` for an unknown
/// project; `TimeOutOfRange` where `now` lies beyond the window arithmetic's
/// range; otherwise the completed, unarchived entries of the project started
/// in the period's window (see [`crate::report::report_window_spec`]), each
/// with its duration.
pub open spec fn track_report_gives(
    store: Store,
    p: TrackReportParams,
    now: i64,
    r: Result<Vec<(TimeEntry, i64)>, ScribeError>,
) -> bool {
    if !filter_project_exists(&store, p.project_slug) {
        r == Err::<Vec<(TimeEntry, i64)>, ScribeError>(
            ScribeError::NotFound { entity: Entity::Project, slug: p.project_slug->0 },
        )
    } else if !(-crate::report::WINDOW_LIMIT < now < crate::report::WINDOW_LIMIT) {
        r == Err::<Vec<(TimeEntry, i64)>, ScribeError>(ScribeError::TimeOutOfRange)
    } else {
        let since = crate::report::report_window_spec(period_text(p.period), now as int).0 as i64;
        r matches Ok(v) && v@ == store.entries@.filter(report_filter(
            filter_project(&store, p.project_slug),
            since,
            (now + 1) as i64,
        )).map_values(|e: TimeEntry| with_duration(e))
    }
}

/// `track_report` at the instant `now`, as [`track_report_gives`] states.
pub fn track_report_at(store: &Store, p: TrackReportParams, now: i64) -> (r: Result<
    Vec<(TimeEntry, i64)>,
    ScribeError,
>)
    requires
        store.wf(),
    ensures
        track_report_gives(*store, p, now, r),
{
    let project_id = match project_id_for(&ProjectOps::new(), store, &p.project_slug) {
        Ok(x) => x,
        Err(e) => {
            return Err(e);
        },
    };
    if now <= -crate::report::WINDOW_LIMIT || now >= crate::report::WINDOW_LIMIT {
        return Err(ScribeError::TimeOutOfRange);
    }
    let period = match &p.period {
        Some(s) => Some(s.as_str()),
        None => None,
    };
    let (since, until) = crate::report::report_window(period, now);
    let v = TrackerOps::new().report(store, project_id, since, until);
    assert(period_text(p.period) == match period { Some(x) => Some(x@), None => None::<Seq<char>> });
    assert(until == (now + 1) as i64);
    assert(project_id == filter_project(store, p.project_slug));
    assert(v@ == store.entries@.filter(report_filter(filter_project(store, p.project_slug), since, (now + 1) as i64))
        .map_values(|e: TimeEntry| with_duration(e)));
    Ok(v)
}

/// `track_report`: completed, unarchived entries of the named project (any
/// when none) started today, this week (from Monday), or at any time up to
/// now, each with its duration, as [`track_report_at`] gives them at the
/// clock's reading. Fails on an unknown project, or when the clock reads a
/// time beyond the window arithmetic's range.
pub fn track_report(store: &Store, p: TrackReportParams) -> (r: Result<Vec<(TimeEntry, i64)>, ScribeError>)
    requires
        store.wf(),
    ensures
        exists|now: i64| #[trigger] track_report_gives(*store, p, now, r),
{
    let now = crate::clock::now_unix();
    track_report_at(store, p, now)
}

/// `capture`: captures a thought into the inbox.
pub fn capture(store: &mut Store, p: CaptureParams) -> (r: Result<CaptureItem, ScribeError>)
    requires
        old(store).wf(),
    ensures
        final(store).wf(),
        trimmed(p.body@).len() == 0 ==> r == Err::<CaptureItem, ScribeError>(ScribeError::EmptyBody),
        r matches Ok(c) ==> {
            &&& c.body@ == trimmed(p.body@)
            &&& !c.processed
            &&& final(store).captures@ == old(store).captures@.push(c)
            &&& final(store).captures.next() == old(store).captures.next() + 1
            &&& final(store).only_captures(old(store))
        },
        r matches Err(e) ==> *final(store) == *old(store),
{
    InboxOps::new().capture(store, p.body.as_str())
}

/// `inbox_list`: unprocessed capture items.
pub fn inbox_list(store: &Store) -> (r: Vec<CaptureItem>)
    requires
        store.wf(),
    ensures
        r@ == store.captures@.filter(capture_filter(false)),
{
    InboxOps::new().list(store, false)
}

/// The action an `inbox_process` request names, or the message refusing it.
pub open spec fn tool_action(p: InboxProcessParams) -> Result<ProcessAction, Seq<char>> {
    let a = p.action@;
    if a == "task"@ {
        match p.project_slug {
            Some(ps) => Ok(ProcessAction::ConvertToTask { project_slug: ps, title: p.title, priority: None }),
            None => Err("project_slug required for action 'task'"@),
        }
    } else if a == "todo"@ {
        match p.project_slug {
            Some(ps) => Ok(ProcessAction::ConvertToTodo { project_slug: ps, title: p.title }),
            None => Err("project_slug required for action 'todo'"@),
        }
    } else if a == "assign"@ {
        match p.project_slug {
            Some(ps) => Ok(ProcessAction::AssignToProject { project_slug: ps }),
            None => Err("project_slug required for action 'assign'"@),
        }
    } else if a == "discard"@ {
        Ok(ProcessAction::Discard)
    } else {
        Err("unknown action '"@ + a + "'; use task, todo, assign, or discard"@)
    }
}

/// Reads the action of an `inbox_process` request.
fn read_action(p: &InboxProcessParams) -> (r: Result<ProcessAction, ScribeError>)
    ensures
        match tool_action(*p) {
            Ok(a) => r == Ok::<ProcessAction, ScribeError>(a),
            Err(m) => r matches Err(e) && e is Input && e->message@ == m,
        },
{
    let a = p.action.as_str();
    if str_eq(a, "task") {
        match &p.project_slug {
            Some(ps) => Ok(ProcessAction::ConvertToTask { project_slug: ps.clone(), title: p.title.clone(), priority: None }),
            None => Err(ScribeError::Input { message: "project_slug required for action 'task'".to_owned() }),
        }
    } else if str_eq(a, "todo") {
        match &p.project_slug {
            Some(ps) => Ok(ProcessAction::ConvertToTodo { project_slug: ps.clone(), title: p.title.clone() }),
            None => Err(ScribeError::Input { message: "project_slug required for action 'todo'".to_owned() }),
        }
    } else if str_eq(a, "assign") {
        match &p.project_slug {
            Some(ps) => Ok(ProcessAction::AssignToProject { project_slug: ps.clone() }),
            None => Err(ScribeError::Input { message: "project_slug required for action 'assign'".to_owned() }),
        }
    } else if str_eq(a, "discard") {
        Ok(ProcessAction::Discard)
    } else {
        let mut out: Vec<char> = Vec::new();
        push_str(&mut out, "unknown action '");
        push_str(&mut out, a);
        push_str(&mut out, "'; use task, todo, assign, or discard");
        Err(ScribeError::Input { message: string_of(&out) })
    }
}

/// `inbox_process`: processes a capture item by the named action.
pub fn inbox_process(store: &mut Store, p: InboxProcessParams) -> (r: Result<CaptureItem, ScribeError>)
    requires
        old(store).wf(),
    ensures
        final(store).wf(),
        r matches Err(e) ==> *final(store) == *old(store),
        tool_action(p) matches Err(m) ==> (r matches Err(e) && e is Input && e->message@ == m),
        r is Ok ==> tool_action(p) is Ok && has_key(old(store).captures@, p.slug@)
            && crate::ops::inbox::action_project_open(old(store), tool_action(p)->Ok_0),
        tool_action(p) is Ok && !has_key(old(store).captures@, p.slug@) ==> (r matches Err(e) && e is NotFound),
        tool_action(p) matches Ok(a) && (a is Discard || a is AssignToProject) && has_key(old(store).captures@, p.slug@)
            && crate::ops::inbox::action_project_open(old(store), a) ==> r is Ok,
        r matches Ok(c) ==> {
            let i = key_index(old(store).captures@, p.slug@);
            &&& c == processed(old(store).captures@[i])
            &&& final(store).captures@ == old(store).captures@.update(i, c)
        },
{
    let action = match read_action(&p) {
        Ok(a) => a,
        Err(e) => {
            return Err(e);
        },
    };
    InboxOps::new().process(store, p.slug.as_str(), action)
}

/// `reminder_list`: unarchived reminders, of one project when asked.
pub fn reminder_list(store: &Store, p: ReminderListParams) -> (r: Result<Vec<Reminder>, ScribeError>)
    requires
        store.wf(),
    ensures
        r is Ok <==> filter_project_exists(store, p.project_slug),
        r matches Ok(v) ==> v@ == store.reminders@.filter(reminder_filter(filter_project(store, p.project_slug), false)),
        r matches Err(e) ==> e == (ScribeError::NotFound { entity: Entity::Project, slug: p.project_slug->0 }),
{
    let project_id = match project_id_for(&ProjectOps::new(), store, &p.project_slug) {
        Ok(x) => x,
        Err(e) => {
            return Err(e);
        },
    };
    Ok(ReminderOps::new().list(store, project_id, false))
}

/// The message for a fire time that does not read.
pub open spec fn invalid_datetime(at: Seq<char>, why: Seq<char>) -> Seq<char> {
    "invalid datetime '"@ + at + "': "@ + why
}

/// `reminder_create`: a reminder at the time `at` names, read under `t`,
/// the clock and time zone as read for it. Fails when `at` does not read,
/// then as creating a reminder fails.
pub fn reminder_create(store: &mut Store, p: ReminderCreateParams, t: &TimeReading) -> (r: Result<
    Reminder,
    ScribeError,
>)
    requires
        old(store).wf(),
    ensures
        final(store).wf(),
        r matches Err(e) ==> *final(store) == *old(store),
        instant_named(p.at@, *t) matches Err(m) ==> (r matches Err(e) && e is Input && e->message@
            == invalid_datetime(p.at@, m)),
        r matches Ok(x) ==> {
            &&& instant_named(p.at@, *t) == Ok::<i64, Seq<char>>(x.remind_at)
            &&& has_key(old(store).projects@, p.project_slug@)
            &&& x.project_id == lookup(old(store).projects@, p.project_slug@)->0.id
            &&& x.task_id == match p.task_slug {
                Some(t) => Some(lookup(old(store).tasks@, t@)->0.id),
                None => None,
            }
            &&& x.message == p.message
            &&& x.persistent == match p.persistent {
                Some(b) => b,
                None => false,
            }
            &&& !x.fired
            &&& x.archived_at is None
            &&& final(store).reminders@ == old(store).reminders@.push(x)
            &&& final(store).reminders.next() == old(store).reminders.next() + 1
            &&& final(store).only_reminders(old(store))
        },
{
    let remind_at = match instant_of(p.at.as_str(), t) {
        Ok(t) => t,
        Err(e) => {
            let mut out: Vec<char> = Vec::new();
            push_str(&mut out, "invalid datetime '");
            push_str(&mut out, p.at.as_str());
            push_str(&mut out, "': ");
            push_str(&mut out, e.as_str());
            return Err(ScribeError::Input { message: string_of(&out) });
        },
    };
    let persistent = match p.persistent {
        Some(b) => b,
        None => false,
    };
    ReminderOps::new().create(
        store,
        CreateReminder {
            project_slug: p.project_slug,
            task_slug: p.task_slug,
            remind_at,
            message: p.message,
            persistent,
        },
    )
}

/// `reminder_archive`: archives a reminder.
pub fn reminder_archive(store: &mut Store, p: ReminderSlugParam) -> (r: Result<Reminder, ScribeError>)
    requires
        old(store).wf(),
    ensures
        final(store).wf(),
        r is Ok <==> has_key(old(store).reminders@, p.slug@),
        r matches Ok(x) ==> {
            let i = key_index(old(store).reminders@, p.slug@);
            &&& x.archived_at is Some
            &&& final(store).reminders@ == old(store).reminders@.update(i, x)
            &&& final(store).only_reminders(old(store))
        },
        r matches Err(e) ==> *final(store) == *old(store) && e is NotFound,
{
    ReminderOps::new().archive(store, p.slug.as_str())
}

/// What reading a resource gives.
#[derive(Debug)]
pub enum ResourceReply {
    /// `scribe://projects`: unarchived projects.
    Projects(Vec<Project>),
    /// `scribe://tasks/active`: unarchived tasks.
    Tasks(Vec<Task>),
    /// `scribe://todos/active`: unarchived todos not done.
    Todos(Vec<Todo>),
    /// `scribe://timer/active`: the running timer and its elapsed seconds.
    Timer(Option<(TimeEntry, i64)>),
    /// `scribe://inbox`: unprocessed capture items.
    Inbox(Vec<CaptureItem>),
    /// `scribe://reminders/pending`: unarchived reminders.
    Reminders(Vec<Reminder>),
}

/// The message for a resource address nobody serves.
pub open spec fn unknown_resource(uri: Seq<char>) -> Seq<char> {
    "unknown resource URI '"@ + uri + "'"@
}

/// Reads the resource at `uri`; an unknown address is refused.
pub fn read_resource(store: &Store, uri: &str) -> (r: Result<ResourceReply, ScribeError>)
    requires
        store.wf(),
    ensures
        uri@ == "scribe://projects"@ ==> (r matches Ok(x) && x matches ResourceReply::Projects(v)
            && v@ == store.projects@.filter(project_filter(None, false))),
        uri@ == "scribe://tasks/active"@ ==> (r matches Ok(x) && x matches ResourceReply::Tasks(v)
            && v@ == store.tasks@.filter(task_filter(None, None, None, false))),
        uri@ == "scribe://todos/active"@ ==> (r matches Ok(x) && x matches ResourceReply::Todos(v)
            && v@ == store.todos@.filter(todo_filter(None, false, false))),
        uri@ == "scribe://timer/active"@ ==> (r matches Ok(x) && x matches ResourceReply::Timer(t)
            && (t is Some <==> has_running(store.entries@))
            && (t matches Some(p) ==> p.0 == store.entries@[first_running(store.entries@)])),
        uri@ == "scribe://inbox"@ ==> (r matches Ok(x) && x matches ResourceReply::Inbox(v)
            && v@ == store.captures@.filter(capture_filter(false))),
        uri@ == "scribe://reminders/pending"@ ==> (r matches Ok(x) && x matches ResourceReply::Reminders(v)
            && v@ == store.reminders@.filter(reminder_filter(None, false))),
        r matches Err(e) ==> e is Input && e->message@ == unknown_resource(uri@),
{
    proof {
        reveal_strlit("scribe://projects");
        reveal_strlit("scribe://tasks/active");
        reveal_strlit("scribe://todos/active");
        reveal_strlit("scribe://timer/active");
        reveal_strlit("scribe://inbox");
        reveal_strlit("scribe://reminders/pending");
        assert("scribe://tasks/active"@[10] == 'a' && "scribe://todos/active"@[10] == 'o'
            && "scribe://timer/active"@[10] == 'i');
        assert("scribe://projects"@.len() == 17 && "scribe://tasks/active"@.len() == 21
            && "scribe://todos/active"@.len() == 21 && "scribe://timer/active"@.len() == 21
            && "scribe://inbox"@.len() == 14 && "scribe://reminders/pending"@.len() == 26);
    }
    if str_eq(uri, "scribe://projects") {
        Ok(ResourceReply::Projects(ProjectOps::new().list_projects(store, None, false)))
    } else if str_eq(uri, "scribe://tasks/active") {
        Ok(ResourceReply::Tasks(TaskOps::new().list_tasks(store, None, None, None, false)))
    } else if str_eq(uri, "scribe://todos/active") {
        Ok(ResourceReply::Todos(TodoOps::new().list(store, None, false, false)))
    } else if str_eq(uri, "scribe://timer/active") {
        Ok(ResourceReply::Timer(TrackerOps::new().timer_status(store)))
    } else if str_eq(uri, "scribe://inbox") {
        Ok(ResourceReply::Inbox(InboxOps::new().list(store, false)))
    } else if str_eq(uri, "scribe://reminders/pending") {
        Ok(ResourceReply::Reminders(ReminderOps::new().list(store, None, false)))
    } else {
        let mut out: Vec<char> = Vec::new();
        push_str(&mut out, "unknown resource URI '");
        push_str(&mut out, uri);
        push_str(&mut out, "'");
        Err(ScribeError::Input { message: string_of(&out) })
    }
}

} // verus!
