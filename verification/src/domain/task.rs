//! `Task` entity, its status and its priority.
//!
//! Tasks are the primary unit of work. They belong to a project and carry a
//! status, a priority and an optional due date. Slugs are generated from the
//! project slug and the title, e.g. `payments-task-fix-login`.

use vstd::prelude::*;
use crate::domain::{copy_opt_string, CivilDate, ProjectId, TaskId};
use crate::text::{push_str, str_eq, string_of};

verus! {

/// Lifecycle status of a task.
#[derive(Debug, Clone, Copy, PartialEq, Eq, Hash, Structural)]
pub enum TaskStatus {
    /// Task has not been started.
    Todo,
    /// Task is actively being worked on.
    InProgress,
    /// Task has been completed.
    Done,
    /// Task was cancelled and will not be completed.
    Cancelled,
}

/// The snake-case name of a task status.
pub open spec fn task_status_name(s: TaskStatus) -> Seq<char> {
    match s {
        TaskStatus::Todo => "todo"@,
        TaskStatus::InProgress => "in_progress"@,
        TaskStatus::Done => "done"@,
        TaskStatus::Cancelled => "cancelled"@,
    }
}

/// The message for a string that names no task status.
pub open spec fn unknown_task_status(s: Seq<char>) -> Seq<char> {
    "unknown task status '"@ + s + "'"@
}

impl TaskStatus {
    /// The snake-case name of the status.
    pub fn as_str(&self) -> (r: &'static str)
        ensures
            r@ == task_status_name(*self),
    {
        match self {
            TaskStatus::Todo => "todo",
            TaskStatus::InProgress => "in_progress",
            TaskStatus::Done => "done",
            TaskStatus::Cancelled => "cancelled",
        }
    }

    /// The snake-case name of the status, as an owned string.
    pub fn to_string(&self) -> (r: String)
        ensures
            r@ == task_status_name(*self),
    {
        self.as_str().to_owned()
    }

    /// Parses a status from its exact snake-case name.
    pub fn parse(s: &str) -> (r: Result<TaskStatus, String>)
        ensures
            r matches Ok(st) ==> task_status_name(st) == s@,
            r is Ok <==> (exists|st: TaskStatus| #[trigger] task_status_name(st) == s@),
            r matches Err(m) ==> m@ == unknown_task_status(s@),
    {
        if str_eq(s, "todo") {
            assert(task_status_name(TaskStatus::Todo) == s@);
            Ok(TaskStatus::Todo)
        } else if str_eq(s, "in_progress") {
            assert(task_status_name(TaskStatus::InProgress) == s@);
            Ok(TaskStatus::InProgress)
        } else if str_eq(s, "done") {
            assert(task_status_name(TaskStatus::Done) == s@);
            Ok(TaskStatus::Done)
        } else if str_eq(s, "cancelled") {
            assert(task_status_name(TaskStatus::Cancelled) == s@);
            Ok(TaskStatus::Cancelled)
        } else {
            let mut out: Vec<char> = Vec::new();
            push_str(&mut out, "unknown task status '");
            push_str(&mut out, s);
            push_str(&mut out, "'");
            assert forall|st: TaskStatus| task_status_name(st) != s@ by {
                match st {
                    TaskStatus::Todo => {},
                    TaskStatus::InProgress => {},
                    TaskStatus::Done => {},
                    TaskStatus::Cancelled => {},
                }
            }
            Err(string_of(&out))
        }
    }
}

impl std::str::FromStr for TaskStatus {
    type Err = String;

    fn from_str(s: &str) -> (r: Result<TaskStatus, String>)
        ensures
            r matches Ok(st) ==> task_status_name(st) == s@,
            r is Ok <==> (exists|st: TaskStatus| #[trigger] task_status_name(st) == s@),
            r matches Err(m) ==> m@ == unknown_task_status(s@),
    {
        TaskStatus::parse(s)
    }
}

/// Urgency level of a task.
#[derive(Debug, Clone, Copy, PartialEq, Eq, Hash, Structural)]
pub enum TaskPriority {
    /// Nice-to-have, no deadline pressure.
    Low,
    /// Default priority level.
    Medium,
    /// Should be done soon.
    High,
    /// Needs immediate attention.
    Urgent,
}

/// The lowercase name of a task priority.
pub open spec fn task_priority_name(p: TaskPriority) -> Seq<char> {
    match p {
        TaskPriority::Low => "low"@,
        TaskPriority::Medium => "medium"@,
        TaskPriority::High => "high"@,
        TaskPriority::Urgent => "urgent"@,
    }
}

/// The message for a string that names no task priority.
pub open spec fn unknown_task_priority(s: Seq<char>) -> Seq<char> {
    "unknown task priority '"@ + s + "'"@
}

impl TaskPriority {
    /// The lowercase name of the priority.
    pub fn as_str(&self) -> (r: &'static str)
        ensures
            r@ == task_priority_name(*self),
    {
        match self {
            TaskPriority::Low => "low",
            TaskPriority::Medium => "medium",
            TaskPriority::High => "high",
            TaskPriority::Urgent => "urgent",
        }
    }

    /// The lowercase name of the priority, as an owned string.
    pub fn to_string(&self) -> (r: String)
        ensures
            r@ == task_priority_name(*self),
    {
        self.as_str().to_owned()
    }

    /// Parses a priority from its exact lowercase name.
    pub fn parse(s: &str) -> (r: Result<TaskPriority, String>)
        ensures
            r matches Ok(p) ==> task_priority_name(p) == s@,
            r is Ok <==> (exists|p: TaskPriority| #[trigger] task_priority_name(p) == s@),
            r matches Err(m) ==> m@ == unknown_task_priority(s@),
    {
        if str_eq(s, "low") {
            assert(task_priority_name(TaskPriority::Low) == s@);
            Ok(TaskPriority::Low)
        } else if str_eq(s, "medium") {
            assert(task_priority_name(TaskPriority::Medium) == s@);
            Ok(TaskPriority::Medium)
        } else if str_eq(s, "high") {
            assert(task_priority_name(TaskPriority::High) == s@);
            Ok(TaskPriority::High)
        } else if str_eq(s, "urgent") {
            assert(task_priority_name(TaskPriority::Urgent) == s@);
            Ok(TaskPriority::Urgent)
        } else {
            let mut out: Vec<char> = Vec::new();
            push_str(&mut out, "unknown task priority '");
            push_str(&mut out, s);
            push_str(&mut out, "'");
            assert forall|p: TaskPriority| task_priority_name(p) != s@ by {
                match p {
                    TaskPriority::Low => {},
                    TaskPriority::Medium => {},
                    TaskPriority::High => {},
                    TaskPriority::Urgent => {},
                }
            }
            Err(string_of(&out))
        }
    }
}

impl std::str::FromStr for TaskPriority {
    type Err = String;

    fn from_str(s: &str) -> (r: Result<TaskPriority, String>)
        ensures
            r matches Ok(p) ==> task_priority_name(p) == s@,
            r is Ok <==> (exists|p: TaskPriority| #[trigger] task_priority_name(p) == s@),
            r matches Err(m) ==> m@ == unknown_task_priority(s@),
    {
        TaskPriority::parse(s)
    }
}

/// A task record.
#[derive(Debug, Clone, PartialEq)]
pub struct Task {
    /// Internal numeric primary key.
    pub id: TaskId,
    /// Unique slug, e.g. `payments-task-fix-login`.
    pub slug: String,
    /// Owning project.
    pub project_id: ProjectId,
    /// Short task title.
    pub title: String,
    /// Optional detailed description.
    pub description: Option<String>,
    /// Current lifecycle status.
    pub status: TaskStatus,
    /// Urgency level.
    pub priority: TaskPriority,
    /// Optional due date.
    pub due_date: Option<CivilDate>,
    /// Optional parent task for hierarchical nesting.
    pub parent_id: Option<TaskId>,
    /// When archived; `None` means the task is active.
    pub archived_at: Option<i64>,
    /// Creation time.
    pub created_at: i64,
    /// Last-updated time.
    pub updated_at: i64,
}

impl Task {
    /// A field-by-field copy.
    pub fn duplicate(&self) -> (r: Task)
        ensures
            r == *self,
    {
        Task {
            id: self.id,
            slug: self.slug.clone(),
            project_id: self.project_id,
            title: self.title.clone(),
            description: copy_opt_string(&self.description),
            status: self.status,
            priority: self.priority,
            due_date: self.due_date,
            parent_id: self.parent_id,
            archived_at: self.archived_at,
            created_at: self.created_at,
            updated_at: self.updated_at,
        }
    }
}

/// Parameters required to create a new task.
#[derive(Debug, Clone)]
pub struct NewTask {
    /// Pre-generated unique slug.
    pub slug: String,
    /// Owning project.
    pub project_id: ProjectId,
    /// Short task title.
    pub title: String,
    /// Optional detailed description.
    pub description: Option<String>,
    /// Initial status.
    pub status: TaskStatus,
    /// Urgency level.
    pub priority: TaskPriority,
    /// Optional due date.
    pub due_date: Option<CivilDate>,
    /// Optional parent task.
    pub parent_id: Option<TaskId>,
}

/// Partial update for mutable task fields; `None` leaves a field as is.
#[derive(Debug, Clone)]
pub struct TaskPatch {
    /// New title, if changing.
    pub title: Option<String>,
    /// New description, if changing.
    pub description: Option<String>,
    /// Whether to clear the description.
    pub clear_description: bool,
    /// New status, if changing.
    pub status: Option<TaskStatus>,
    /// New priority, if changing.
    pub priority: Option<TaskPriority>,
    /// New due date, if changing.
    pub due_date: Option<CivilDate>,
    /// Whether to clear the due date.
    pub clear_due_date: bool,
    /// New project assignment, if moving to a different project.
    pub project_id: Option<ProjectId>,
}

impl TaskPatch {
    /// The patch that only sets the status to done.
    pub open spec fn done_patch() -> TaskPatch {
        TaskPatch {
            title: None,
            description: None,
            clear_description: false,
            status: Some(TaskStatus::Done),
            priority: None,
            due_date: None,
            clear_due_date: false,
            project_id: None,
        }
    }

    /// The patch that only sets the status to done.
    pub fn done() -> (r: TaskPatch)
        ensures
            r == TaskPatch::done_patch(),
    {
        TaskPatch {
            title: None,
            description: None,
            clear_description: false,
            status: Some(TaskStatus::Done),
            priority: None,
            due_date: None,
            clear_due_date: false,
            project_id: None,
        }
    }

    /// A patch that changes nothing.
    pub fn empty() -> (r: TaskPatch)
        ensures
            r.title is None,
            r.description is None,
            !r.clear_description,
            r.status is None,
            r.priority is None,
            r.due_date is None,
            !r.clear_due_date,
            r.project_id is None,
    {
        TaskPatch {
            title: None,
            description: None,
            clear_description: false,
            status: None,
            priority: None,
            due_date: None,
            clear_due_date: false,
            project_id: None,
        }
    }
}

} // verus!
