//! `TimeEntry` entity: a timer session; a running timer has no end.

use vstd::prelude::*;
use crate::domain::{copy_opt_string, ProjectId, TaskId, TimeEntryId};

verus! {

/// A time entry record.
#[derive(Debug, Clone, PartialEq)]
pub struct TimeEntry {
    /// Internal numeric primary key.
    pub id: TimeEntryId,
    /// Unique slug, e.g. `payments-entry-20260331-143000`.
    pub slug: String,
    /// The project this entry belongs to.
    pub project_id: ProjectId,
    /// Optional linked task.
    pub task_id: Option<TaskId>,
    /// When the timer started.
    pub started_at: i64,
    /// When the timer stopped; `None` while running.
    pub ended_at: Option<i64>,
    /// Optional free-text note.
    pub note: Option<String>,
    /// When archived; `None` means the entry is active.
    pub archived_at: Option<i64>,
    /// Creation time.
    pub created_at: i64,
}

impl TimeEntry {
    /// A field-by-field copy.
    pub fn duplicate(&self) -> (r: TimeEntry)
        ensures
            r == *self,
    {
        TimeEntry {
            id: self.id,
            slug: self.slug.clone(),
            project_id: self.project_id,
            task_id: self.task_id,
            started_at: self.started_at,
            ended_at: self.ended_at,
            note: copy_opt_string(&self.note),
            archived_at: self.archived_at,
            created_at: self.created_at,
        }
    }
}

/// Parameters required to create a new time entry.
#[derive(Debug, Clone)]
pub struct NewTimeEntry {
    /// Pre-generated unique slug.
    pub slug: String,
    /// Owning project.
    pub project_id: ProjectId,
    /// Optional linked task.
    pub task_id: Option<TaskId>,
    /// Start time.
    pub started_at: i64,
    /// Optional note.
    pub note: Option<String>,
}

/// Partial update of a time entry: its note.
#[derive(Debug, Clone)]
pub struct TimeEntryPatch {
    /// The new note; `None` clears it.
    pub note: Option<String>,
}

} // verus!
