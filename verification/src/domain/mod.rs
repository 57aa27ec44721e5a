//! Domain model: entities, identifiers, statuses and slugs.
//!
//! Timestamps are whole seconds since the Unix epoch (UTC); calendar dates
//! are year, month and day.

pub mod capture;
pub mod links;
pub mod note;
pub mod project;
pub mod reminder;
pub mod slug;
pub mod task;
pub mod time_entry;
pub mod todo;

use vstd::prelude::*;

pub use capture::{CaptureItem, NewCaptureItem};
pub use links::parse_links;
pub use note::{Link, NewNote, Note, NotePatch};
pub use project::{NewProject, Project, ProjectPatch, ProjectStatus};
pub use reminder::{NewReminder, Reminder, ReminderPatch};
pub use task::{NewTask, Task, TaskPatch, TaskPriority, TaskStatus};
pub use time_entry::{NewTimeEntry, TimeEntry, TimeEntryPatch};
pub use todo::{NewTodo, Todo, TodoPatch};

verus! {

/// Strongly-typed primary key for a project.
#[derive(Debug, Clone, Copy, PartialEq, Eq, Hash, Structural)]
pub struct ProjectId(pub i64);

/// Strongly-typed primary key for a task.
#[derive(Debug, Clone, Copy, PartialEq, Eq, Hash, Structural)]
pub struct TaskId(pub i64);

/// Strongly-typed primary key for a todo.
#[derive(Debug, Clone, Copy, PartialEq, Eq, Hash, Structural)]
pub struct TodoId(pub i64);

/// Strongly-typed primary key for a time entry.
#[derive(Debug, Clone, Copy, PartialEq, Eq, Hash, Structural)]
pub struct TimeEntryId(pub i64);

/// Strongly-typed primary key for a capture item.
#[derive(Debug, Clone, Copy, PartialEq, Eq, Hash, Structural)]
pub struct CaptureItemId(pub i64);

/// Strongly-typed primary key for a reminder.
#[derive(Debug, Clone, Copy, PartialEq, Eq, Hash, Structural)]
pub struct ReminderId(pub i64);

/// Strongly-typed primary key for a note.
#[derive(Debug, Clone, Copy, PartialEq, Eq, Hash, Structural)]
pub struct NoteId(pub i64);

/// A calendar date without a time of day.
#[derive(Debug, Clone, Copy, PartialEq, Eq, Hash, Structural)]
pub struct CivilDate {
    /// Proleptic Gregorian year.
    pub year: i32,
    /// Month, 1 to 12.
    pub month: u32,
    /// Day of the month, from 1.
    pub day: u32,
}

/// A copy of an optional string.
pub fn copy_opt_string(s: &Option<String>) -> (r: Option<String>)
    ensures
        r == *s,
{
    match s {
        Some(x) => Some(x.clone()),
        None => None,
    }
}

} // verus!
