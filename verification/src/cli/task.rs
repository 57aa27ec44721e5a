//! `scribe task …`: add, list, show, edit, move, complete, archive,
//! restore and delete tasks.

use vstd::prelude::*;
use crate::cli::project::OutputFormat;
use crate::datetime::{chrono_date, parse_naive_date};
use crate::domain::{copy_opt_string, CivilDate, ProjectId, Task, TaskPatch, TaskPriority, TaskStatus};
use crate::error::{Entity, ScribeError};
use crate::ops::projects::ProjectOps;
use crate::ops::tasks::{patched_task, task_filter, CreateTask, TaskOps};
use crate::store::table::{has_key, key_index, lookup, unlink_rows};
use crate::store::{Record, Store};
use crate::text::{push_str, string_of};

verus! {

/// `scribe task`.
#[derive(Debug)]
pub struct TaskCommand {
    /// The subcommand.
    pub subcommand: TaskSubcommand,
}

/// The `scribe task` subcommands.
#[derive(Debug)]
pub enum TaskSubcommand {
    /// Add a task.
    Add(TaskAdd),
    /// List tasks.
    List(TaskList),
    /// Show a task.
    Show(TaskShow),
    /// Edit a task.
    Edit(TaskEdit),
    /// Move a task to another project.
    Move(TaskMove),
    /// Mark a task done.
    Done(TaskDone),
    /// Archive a task.
    Archive(TaskArchive),
    /// Restore an archived task.
    Restore(TaskRestore),
    /// Delete a task.
    Delete(TaskDelete),
}

/// `scribe task add`.
#[derive(Debug)]
pub struct TaskAdd {
    /// Task title.
    pub title: String,
    /// Project slug; `quick-capture` when absent.
    pub project: Option<String>,
    /// Priority.
    pub priority: TaskPriority,
    /// Due date, `YYYY-MM-DD`.
    pub due: Option<String>,
    /// Output format.
    pub output: OutputFormat,
}

/// `scribe task list`.
#[derive(Debug)]
pub struct TaskList {
    /// Only tasks of this project.
    pub project: Option<String>,
    /// Only tasks with this status.
    pub status: Option<TaskStatus>,
    /// Only tasks with this priority.
    pub priority: Option<TaskPriority>,
    /// Include archived tasks.
    pub archived: bool,
    /// Output format.
    pub output: OutputFormat,
}

/// `scribe task show`.
#[derive(Debug)]
pub struct TaskShow {
    /// The task's slug.
    pub slug: String,
    /// Output format.
    pub output: OutputFormat,
}

/// `scribe task edit`.
#[derive(Debug)]
pub struct TaskEdit {
    /// The task's slug.
    pub slug: String,
    /// New title.
    pub title: Option<String>,
    /// New status.
    pub status: Option<TaskStatus>,
    /// New priority.
    pub priority: Option<TaskPriority>,
    /// New due date, `YYYY-MM-DD`.
    pub due: Option<String>,
    /// Output format.
    pub output: OutputFormat,
}

/// `scribe task move`.
#[derive(Debug)]
pub struct TaskMove {
    /// The task's slug.
    pub slug: String,
    /// Destination project slug.
    pub project: String,
    /// Output format.
    pub output: OutputFormat,
}

/// `scribe task done`.
#[derive(Debug)]
pub struct TaskDone {
    /// The task's slug.
    pub slug: String,
    /// Output format.
    pub output: OutputFormat,
}

/// `scribe task archive`.
#[derive(Debug)]
pub struct TaskArchive {
    /// The task's slug.
    pub slug: String,
    /// Output format.
    pub output: OutputFormat,
}

/// `scribe task restore`.
#[derive(Debug)]
pub struct TaskRestore {
    /// The task's slug.
    pub slug: String,
    /// Output format.
    pub output: OutputFormat,
}

/// `scribe task delete`.
#[derive(Debug)]
pub struct TaskDelete {
    /// The task's slug.
    pub slug: String,
    /// Output format.
    pub output: OutputFormat,
}

/// What a task command produced.
#[derive(Debug)]
pub enum TaskOutcome {
    /// The task created, shown, edited, moved, completed, archived or
    /// restored.
    Task(Task),
    /// The tasks listed.
    Tasks(Vec<Task>),
    /// The slug of the deleted task.
    Deleted(String),
}

/// A due date argument: the date chrono reads as `%Y-%m-%d`, or the message
/// naming the text and chrono's complaint.
pub open spec fn due_date_of(s: Seq<char>) -> Result<CivilDate, Seq<char>> {
    match chrono_date(s, "%Y-%m-%d"@) {
        Ok(d) => Ok(d),
        Err(e) => Err("invalid date '"@ + s + "': "@ + e),
    }
}

/// Reads a due date argument, `YYYY-MM-DD`.
pub fn parse_due_date(s: &str) -> (r: Result<CivilDate, ScribeError>)
    ensures
        match r {
            Ok(d) => due_date_of(s@) == Ok::<CivilDate, Seq<char>>(d),
            Err(e) => e is Input && due_date_of(s@) == Err::<CivilDate, Seq<char>>(e->message@),
        },
{
    match parse_naive_date(s, "%Y-%m-%d") {
        Ok(d) => Ok(d),
        Err(e) => {
            let mut out: Vec<char> = Vec::new();
            push_str(&mut out, "invalid date '");
            push_str(&mut out, s);
            push_str(&mut out, "': ");
            push_str(&mut out, e.as_str());
            Err(ScribeError::Input { message: string_of(&out) })
        },
    }
}

/// Reads an optional due date argument.
fn parse_opt_due(s: &Option<String>) -> (r: Result<Option<CivilDate>, ScribeError>)
    ensures
        match s {
            Some(t) => match r {
                Ok(d) => d is Some && due_date_of(t@) == Ok::<CivilDate, Seq<char>>(d->0),
                Err(e) => e is Input && due_date_of(t@) == Err::<CivilDate, Seq<char>>(e->message@),
            },
            None => r == Ok::<Option<CivilDate>, ScribeError>(None),
        },
{
    match s {
        Some(t) => match parse_due_date(t.as_str()) {
            Ok(d) => Ok(Some(d)),
            Err(e) => Err(e),
        },
        None => Ok(None),
    }
}

/// The project slug a new task goes to.
pub open spec fn task_add_project(a: TaskAdd) -> Seq<char> {
    match a.project {
        Some(p) => p@,
        None => "quick-capture"@,
    }
}

/// What running `cmd` on `old`, leaving `new`, may produce.
pub open spec fn task_run_done(
    cmd: TaskCommand,
    old: &Store,
    new: &Store,
    r: Result<TaskOutcome, ScribeError>,
) -> bool {
    &&& new.wf()
    &&& (r is Err ==> *new == *old)
    &&& match cmd.subcommand {
        TaskSubcommand::Add(a) => {
            &&& (!has_key(old.projects@, task_add_project(a)) ==> r == Err::<TaskOutcome, ScribeError>(
                ScribeError::NotFound { entity: Entity::Project, slug: r->Err_0->NotFound_slug },
            ) && r->Err_0->NotFound_slug@ == task_add_project(a))
            &&& ((has_key(old.projects@, task_add_project(a)) && a.due is Some && due_date_of(a.due->0@) is Err)
                ==> (r matches Err(e) && e is Input && due_date_of(a.due->0@) == Err::<CivilDate, Seq<char>>(
                e->message@,
            )))
            &&& (r matches Ok(o) ==> o matches TaskOutcome::Task(t) && {
                &&& new.tasks@ == old.tasks@.push(t)
                &&& t.project_id == lookup(old.projects@, task_add_project(a))->0.id
                &&& t.priority == a.priority
                &&& t.status == TaskStatus::Todo
                &&& (match a.due {
                    Some(d) => due_date_of(d@) == Ok::<CivilDate, Seq<char>>(t.due_date->0) && t.due_date is Some,
                    None => t.due_date is None,
                })
                &&& new.only_tasks(old)
            })
        },
        TaskSubcommand::List(a) => {
            &&& *new == *old
            &&& (r is Ok <==> match a.project { Some(p) => has_key(old.projects@, p@), None => true })
            &&& (r matches Ok(o) ==> o matches TaskOutcome::Tasks(v) && v@ == old.tasks@.filter(task_filter(
                match a.project {
                    Some(p) => Some(lookup(old.projects@, p@)->0.id),
                    None => None::<ProjectId>,
                },
                a.status,
                a.priority,
                a.archived,
            )))
        },
        TaskSubcommand::Show(a) => {
            &&& *new == *old
            &&& (r is Ok <==> has_key(old.tasks@, a.slug@))
            &&& (r matches Ok(o) ==> o matches TaskOutcome::Task(t) && lookup(old.tasks@, a.slug@) == Some(t))
        },
        TaskSubcommand::Edit(a) => {
            &&& (r matches Ok(o) ==> o matches TaskOutcome::Task(t) && {
                let i = key_index(old.tasks@, a.slug@);
                &&& has_key(old.tasks@, a.slug@)
                &&& t.title == match a.title { Some(x) => x, None => old.tasks@[i].title }
                &&& t.status == match a.status { Some(x) => x, None => old.tasks@[i].status }
                &&& t.priority == match a.priority { Some(x) => x, None => old.tasks@[i].priority }
                &&& new.tasks@ == old.tasks@.update(i, t)
                &&& new.only_tasks(old)
            })
            &&& (a.due is None ==> (r is Ok <==> has_key(old.tasks@, a.slug@)))
        },
        TaskSubcommand::Move(a) => {
            &&& (r is Ok <==> has_key(old.projects@, a.project@) && has_key(old.tasks@, a.slug@))
            &&& (r matches Ok(o) ==> o matches TaskOutcome::Task(t) && {
                let i = key_index(old.tasks@, a.slug@);
                &&& t == patched_task(old.tasks@[i], TaskPatch {
                    title: None,
                    description: None,
                    clear_description: false,
                    status: None,
                    priority: None,
                    due_date: None,
                    clear_due_date: false,
                    project_id: Some(lookup(old.projects@, a.project@)->0.id),
                }, t.updated_at)
                &&& new.tasks@ == old.tasks@.update(i, t)
            })
        },
        TaskSubcommand::Done(a) => {
            &&& (r is Ok <==> has_key(old.tasks@, a.slug@))
            &&& (r matches Ok(o) ==> o matches TaskOutcome::Task(t) && t.status == TaskStatus::Done)
        },
        TaskSubcommand::Archive(a) => {
            &&& (r is Ok <==> has_key(old.tasks@, a.slug@))
            &&& (r matches Ok(o) ==> o matches TaskOutcome::Task(t) && t.archived_at is Some)
        },
        TaskSubcommand::Restore(a) => {
            &&& (r is Ok <==> has_key(old.tasks@, a.slug@))
            &&& (r matches Ok(o) ==> o matches TaskOutcome::Task(t) && t.archived_at is None)
        },
        TaskSubcommand::Delete(a) => {
            &&& (r is Ok <==> has_key(old.tasks@, a.slug@) && lookup(old.tasks@, a.slug@)->0.archived_at is Some)
            &&& (r matches Ok(o) ==> o matches TaskOutcome::Deleted(s) && s == a.slug && new.tasks@
                == unlink_rows(
                old.tasks@.remove(key_index(old.tasks@, a.slug@)),
                seq![old.tasks@[key_index(old.tasks@, a.slug@)].id],
            ))
        },
    }
}

/// Runs a `scribe task` command against the store.
pub fn run(cmd: &TaskCommand, task_ops: &TaskOps, project_ops: &ProjectOps, store: &mut Store) -> (r: Result<
    TaskOutcome,
    ScribeError,
>)
    requires
        old(store).wf(),
    ensures
        task_run_done(*cmd, old(store), final(store), r),
{
    match &cmd.subcommand {
        TaskSubcommand::Add(a) => {
            let project_slug = match &a.project {
                Some(p) => p.clone(),
                None => "quick-capture".to_owned(),
            };
            let project = match project_ops.get_project(store, project_slug.as_str()) {
                Some(p) => p,
                None => {
                    return Err(ScribeError::NotFound { entity: Entity::Project, slug: project_slug });
                },
            };
            let due_date = match parse_opt_due(&a.due) {
                Ok(d) => d,
                Err(e) => {
                    return Err(e);
                },
            };
            let params = CreateTask {
                project_slug: project.slug,
                project_id: project.id,
                title: a.title.clone(),
                description: None,
                status: TaskStatus::Todo,
                priority: a.priority,
                due_date,
                parent_id: None,
            };
            match task_ops.create_task(store, params) {
                Ok(t) => Ok(TaskOutcome::Task(t)),
                Err(e) => Err(e),
            }
        },
        TaskSubcommand::List(a) => {
            let project_id = match &a.project {
                Some(slug) => match project_ops.get_project(store, slug.as_str()) {
                    Some(p) => Some(p.id),
                    None => {
                        return Err(ScribeError::NotFound { entity: Entity::Project, slug: slug.clone() });
                    },
                },
                None => None,
            };
            Ok(TaskOutcome::Tasks(task_ops.list_tasks(store, project_id, a.status, a.priority, a.archived)))
        },
        TaskSubcommand::Show(a) => match task_ops.get_task(store, a.slug.as_str()) {
            Some(t) => Ok(TaskOutcome::Task(t)),
            None => Err(ScribeError::NotFound { entity: Entity::Task, slug: a.slug.clone() }),
        },
        TaskSubcommand::Edit(a) => {
            let due_date = match parse_opt_due(&a.due) {
                Ok(d) => d,
                Err(e) => {
                    return Err(e);
                },
            };
            let patch = TaskPatch {
                title: copy_opt_string(&a.title),
                description: None,
                clear_description: false,
                status: a.status,
                priority: a.priority,
                due_date,
                clear_due_date: false,
                project_id: None,
            };
            match task_ops.update_task(store, a.slug.as_str(), patch) {
                Ok(t) => Ok(TaskOutcome::Task(t)),
                Err(e) => Err(e),
            }
        },
        TaskSubcommand::Move(a) => {
            let project = match project_ops.get_project(store, a.project.as_str()) {
                Some(p) => p,
                None => {
                    return Err(ScribeError::NotFound { entity: Entity::Project, slug: a.project.clone() });
                },
            };
            proof {
                let i = key_index(store.projects@, a.project@);
                assert(crate::store::table::has_ident(store.projects@, project.id.0)) by {
                    assert(store.projects@[i].ident() == project.id.0);
                }
            }
            let patch = TaskPatch {
                title: None,
                description: None,
                clear_description: false,
                status: None,
                priority: None,
                due_date: None,
                clear_due_date: false,
                project_id: Some(project.id),
            };
            match task_ops.update_task(store, a.slug.as_str(), patch) {
                Ok(t) => Ok(TaskOutcome::Task(t)),
                Err(e) => Err(e),
            }
        },
        TaskSubcommand::Done(a) => match task_ops.mark_done(store, a.slug.as_str()) {
            Ok(t) => Ok(TaskOutcome::Task(t)),
            Err(e) => Err(e),
        },
        TaskSubcommand::Archive(a) => match task_ops.archive_task(store, a.slug.as_str()) {
            Ok(t) => Ok(TaskOutcome::Task(t)),
            Err(e) => Err(e),
        },
        TaskSubcommand::Restore(a) => match task_ops.restore_task(store, a.slug.as_str()) {
            Ok(t) => Ok(TaskOutcome::Task(t)),
            Err(e) => Err(e),
        },
        TaskSubcommand::Delete(a) => match task_ops.delete_task(store, a.slug.as_str()) {
            Ok(()) => Ok(TaskOutcome::Deleted(a.slug.clone())),
            Err(e) => Err(e),
        },
    }
}

} // verus!
