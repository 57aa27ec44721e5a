//! `Reminder` entity: a scheduled notification linked to a project and
//! optionally a task.

use vstd::prelude::*;
use crate::domain::{copy_opt_string, ProjectId, ReminderId, TaskId};

verus! {

/// A reminder record.
#[derive(Debug, Clone, PartialEq)]
pub struct Reminder {
    /// Internal numeric primary key.
    pub id: ReminderId,
    /// Unique slug, e.g. `payments-reminder-deploy-friday`.
    pub slug: String,
    /// The project this reminder belongs to.
    pub project_id: ProjectId,
    /// Optional linked task.
    pub task_id: Option<TaskId>,
    /// When the reminder should fire.
    pub remind_at: i64,
    /// Optional message to display.
    pub message: Option<String>,
    /// Whether the reminder has fired.
    pub fired: bool,
    /// Whether the notification waits to be dismissed.
    pub persistent: bool,
    /// When archived; `None` means the reminder is active.
    pub archived_at: Option<i64>,
    /// Creation time.
    pub created_at: i64,
}

impl Reminder {
    /// A field-by-field copy.
    pub fn duplicate(&self) -> (r: Reminder)
        ensures
            r == *self,
    {
        Reminder {
            id: self.id,
            slug: self.slug.clone(),
            project_id: self.project_id,
            task_id: self.task_id,
            remind_at: self.remind_at,
            message: copy_opt_string(&self.message),
            fired: self.fired,
            persistent: self.persistent,
            archived_at: self.archived_at,
            created_at: self.created_at,
        }
    }
}

/// Parameters required to create a new reminder.
#[derive(Debug, Clone)]
pub struct NewReminder {
    /// Pre-generated unique slug.
    pub slug: String,
    /// Owning project.
    pub project_id: ProjectId,
    /// Optional linked task.
    pub task_id: Option<TaskId>,
    /// When to fire.
    pub remind_at: i64,
    /// Optional message.
    pub message: Option<String>,
    /// Whether the notification waits to be dismissed.
    pub persistent: bool,
}

/// Partial update of a reminder; `None` leaves a field as is.
#[derive(Debug, Clone)]
pub struct ReminderPatch {
    /// New firing time.
    pub remind_at: Option<i64>,
    /// New message.
    pub message: Option<String>,
    /// New persistence flag.
    pub persistent: Option<bool>,
}

} // verus!
