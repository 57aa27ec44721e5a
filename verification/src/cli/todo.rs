//! `scribe todo …`: add, list, show, move, complete, archive, restore and
//! delete todos.

use vstd::prelude::*;
use crate::cli::project::OutputFormat;
use crate::domain::{ProjectId, Todo};
use crate::error::{Entity, ScribeError};
use crate::ops::projects::ProjectOps;
use crate::ops::todos::{todo_filter, todo_slug_base, valid_todo_request, TodoOps};
use crate::ops::fresh_slug_for;
use crate::store::table::{has_key, key_index, lookup};
use crate::store::Store;

verus! {

/// `scribe todo`.
#[derive(Debug)]
pub struct TodoCommand {
    /// The subcommand.
    pub subcommand: TodoSubcommand,
}

/// The `scribe todo` subcommands.
#[derive(Debug)]
pub enum TodoSubcommand {
    /// Add a todo.
    Add(TodoAdd),
    /// List todos.
    List(TodoList),
    /// Show a todo.
    Show(TodoShow),
    /// Move a todo to another project.
    Move(TodoMove),
    /// Mark a todo done.
    Done(TodoDone),
    /// Archive a todo.
    Archive(TodoArchive),
    /// Restore an archived todo.
    Restore(TodoRestore),
    /// Delete an archived todo.
    Delete(TodoDelete),
}

/// `scribe todo add`.
#[derive(Debug)]
pub struct TodoAdd {
    /// Todo title.
    pub title: String,
    /// Project slug; `quick-capture` when absent.
    pub project: Option<String>,
    /// Output format.
    pub output: OutputFormat,
}

/// `scribe todo list`.
#[derive(Debug)]
pub struct TodoList {
    /// Only todos of this project.
    pub project: Option<String>,
    /// Include done todos.
    pub all: bool,
    /// Include archived todos (and done ones).
    pub archived: bool,
    /// Output format.
    pub output: OutputFormat,
}

/// `scribe todo show`.
#[derive(Debug)]
pub struct TodoShow {
    /// The todo's slug.
    pub slug: String,
    /// Output format.
    pub output: OutputFormat,
}

/// `scribe todo move`.
#[derive(Debug)]
pub struct TodoMove {
    /// The todo's slug.
    pub slug: String,
    /// Destination project slug.
    pub project: String,
    /// Output format.
    pub output: OutputFormat,
}

/// `scribe todo done`.
#[derive(Debug)]
pub struct TodoDone {
    /// The todo's slug.
    pub slug: String,
    /// Output format.
    pub output: OutputFormat,
}

/// `scribe todo archive`.
#[derive(Debug)]
pub struct TodoArchive {
    /// The todo's slug.
    pub slug: String,
    /// Output format.
    pub output: OutputFormat,
}

/// `scribe todo restore`.
#[derive(Debug)]
pub struct TodoRestore {
    /// The todo's slug.
    pub slug: String,
    /// Output format.
    pub output: OutputFormat,
}

/// `scribe todo delete`.
#[derive(Debug)]
pub struct TodoDelete {
    /// The todo's slug.
    pub slug: String,
    /// Output format.
    pub output: OutputFormat,
}

/// What a todo command produced.
#[derive(Debug)]
pub enum TodoOutcome {
    /// The todo created, shown, moved, completed, archived or restored.
    Todo(Todo),
    /// The todos listed.
    Todos(Vec<Todo>),
    /// The slug of the deleted todo.
    Deleted(String),
}

/// The project slug a new todo goes to.
pub open spec fn todo_add_project(a: TodoAdd) -> Seq<char> {
    match a.project {
        Some(p) => p@,
        None => "quick-capture"@,
    }
}

/// What running `cmd` on `old`, leaving `new`, may produce.
pub open spec fn todo_run_done(
    cmd: TodoCommand,
    old: &Store,
    new: &Store,
    r: Result<TodoOutcome, ScribeError>,
) -> bool {
    &&& new.wf()
    &&& (r is Err ==> *new == *old)
    &&& match cmd.subcommand {
        TodoSubcommand::Add(a) => {
            &&& (r is Ok ==> valid_todo_request(old, todo_add_project(a), a.title@))
            &&& (r matches Ok(o) ==> o matches TodoOutcome::Todo(t) && {
                &&& new.todos@ == old.todos@.push(t)
                &&& fresh_slug_for(old.todos@, todo_slug_base(todo_add_project(a), a.title@), t.slug@)
                &&& t.title@ == a.title@ && !t.done
                &&& new.only_todos(old)
            })
        },
        TodoSubcommand::List(a) => {
            &&& *new == *old
            &&& (r is Ok <==> match a.project { Some(p) => has_key(old.projects@, p@), None => true })
            &&& (r matches Ok(o) ==> o matches TodoOutcome::Todos(v) && v@ == old.todos@.filter(todo_filter(
                match a.project {
                    Some(p) => Some(lookup(old.projects@, p@)->0.id),
                    None => None::<ProjectId>,
                },
                a.all || a.archived,
                a.archived,
            )))
        },
        TodoSubcommand::Show(a) => {
            &&& *new == *old
            &&& (r is Ok <==> has_key(old.todos@, a.slug@))
            &&& (r matches Ok(o) ==> o matches TodoOutcome::Todo(t) && lookup(old.todos@, a.slug@) == Some(t))
        },
        TodoSubcommand::Move(a) => {
            &&& (r is Ok <==> has_key(old.projects@, a.project@) && lookup(old.projects@, a.project@)->0.archived_at is None
                && has_key(old.todos@, a.slug@))
            &&& (r matches Ok(o) ==> o matches TodoOutcome::Todo(t) && t.project_id == lookup(old.projects@, a.project@)->0.id)
        },
        TodoSubcommand::Done(a) => {
            &&& (r is Ok <==> has_key(old.todos@, a.slug@))
            &&& (r matches Ok(o) ==> o matches TodoOutcome::Todo(t) && t.done)
        },
        TodoSubcommand::Archive(a) => {
            &&& (r is Ok <==> has_key(old.todos@, a.slug@))
            &&& (r matches Ok(o) ==> o matches TodoOutcome::Todo(t) && t.archived_at is Some)
        },
        TodoSubcommand::Restore(a) => {
            &&& (r is Ok <==> has_key(old.todos@, a.slug@))
            &&& (r matches Ok(o) ==> o matches TodoOutcome::Todo(t) && t.archived_at is None)
        },
        TodoSubcommand::Delete(a) => {
            &&& (r is Ok <==> has_key(old.todos@, a.slug@) && lookup(old.todos@, a.slug@)->0.archived_at is Some)
            &&& (r matches Ok(o) ==> o matches TodoOutcome::Deleted(s) && s == a.slug && new.todos@
                == old.todos@.remove(key_index(old.todos@, a.slug@)))
        },
    }
}

/// Runs a `scribe todo` command against the store.
pub fn run(cmd: &TodoCommand, ops: &TodoOps, project_ops: &ProjectOps, store: &mut Store) -> (r: Result<
    TodoOutcome,
    ScribeError,
>)
    requires
        old(store).wf(),
    ensures
        todo_run_done(*cmd, old(store), final(store), r),
{
    match &cmd.subcommand {
        TodoSubcommand::Add(a) => {
            let project_slug = match &a.project {
                Some(p) => p.clone(),
                None => "quick-capture".to_owned(),
            };
            match ops.create(store, project_slug.as_str(), a.title.as_str()) {
                Ok(t) => Ok(TodoOutcome::Todo(t)),
                Err(e) => Err(e),
            }
        },
        TodoSubcommand::List(a) => {
            let project_id = match &a.project {
                Some(slug) => match project_ops.get_project(store, slug.as_str()) {
                    Some(p) => Some(p.id),
                    None => {
                        return Err(ScribeError::NotFound { entity: Entity::Project, slug: slug.clone() });
                    },
                },
                None => None,
            };
            Ok(TodoOutcome::Todos(ops.list(store, project_id, a.all || a.archived, a.archived)))
        },
        TodoSubcommand::Show(a) => match ops.get(store, a.slug.as_str()) {
            Some(t) => Ok(TodoOutcome::Todo(t)),
            None => Err(ScribeError::NotFound { entity: Entity::Todo, slug: a.slug.clone() }),
        },
        TodoSubcommand::Move(a) => match ops.move_project(store, a.slug.as_str(), a.project.as_str()) {
            Ok(t) => Ok(TodoOutcome::Todo(t)),
            Err(e) => Err(e),
        },
        TodoSubcommand::Done(a) => match ops.mark_done(store, a.slug.as_str()) {
            Ok(t) => Ok(TodoOutcome::Todo(t)),
            Err(e) => Err(e),
        },
        TodoSubcommand::Archive(a) => match ops.archive(store, a.slug.as_str()) {
            Ok(t) => Ok(TodoOutcome::Todo(t)),
            Err(e) => Err(e),
        },
        TodoSubcommand::Restore(a) => match ops.restore(store, a.slug.as_str()) {
            Ok(t) => Ok(TodoOutcome::Todo(t)),
            Err(e) => Err(e),
        },
        TodoSubcommand::Delete(a) => match ops.delete(store, a.slug.as_str()) {
            Ok(()) => Ok(TodoOutcome::Deleted(a.slug.clone())),
            Err(e) => Err(e),
        },
    }
}

} // verus!
