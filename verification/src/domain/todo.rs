//! `Todo` entity: a lightweight checklist item with a `done` flag.

use vstd::prelude::*;
use crate::domain::{ProjectId, TodoId};

verus! {

/// A todo record.
#[derive(Debug, Clone, PartialEq)]
pub struct Todo {
    /// Internal numeric primary key.
    pub id: TodoId,
    /// Unique slug, e.g. `payments-todo-review-docs`.
    pub slug: String,
    /// The project this todo belongs to.
    pub project_id: ProjectId,
    /// Todo title.
    pub title: String,
    /// Whether the todo is done.
    pub done: bool,
    /// When archived; `None` means the todo is active.
    pub archived_at: Option<i64>,
    /// Creation time.
    pub created_at: i64,
    /// Last-updated time.
    pub updated_at: i64,
}

impl Todo {
    /// A field-by-field copy.
    pub fn duplicate(&self) -> (r: Todo)
        ensures
            r == *self,
    {
        Todo {
            id: self.id,
            slug: self.slug.clone(),
            project_id: self.project_id,
            title: self.title.clone(),
            done: self.done,
            archived_at: self.archived_at,
            created_at: self.created_at,
            updated_at: self.updated_at,
        }
    }
}

/// Parameters required to create a new todo.
#[derive(Debug, Clone)]
pub struct NewTodo {
    /// Pre-generated unique slug.
    pub slug: String,
    /// Owning project.
    pub project_id: ProjectId,
    /// Todo title.
    pub title: String,
}

/// Partial update for mutable todo fields; `None` leaves a field as is.
#[derive(Debug, Clone)]
pub struct TodoPatch {
    /// New title, if changing.
    pub title: Option<String>,
    /// New done flag, if changing.
    pub done: Option<bool>,
    /// New project, if moving.
    pub project_id: Option<ProjectId>,
}

impl TodoPatch {
    /// The patch that only sets the done flag to `done`.
    pub open spec fn spec_with_done(done: bool) -> TodoPatch {
        TodoPatch { title: None, done: Some(done), project_id: None }
    }

    /// The patch that only sets the done flag to `done`.
    pub fn with_done(done: bool) -> (r: TodoPatch)
        ensures
            r == TodoPatch::spec_with_done(done),
    {
        TodoPatch { title: None, done: Some(done), project_id: None }
    }
}

} // verus!
