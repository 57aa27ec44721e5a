//! The command line: every command's arguments, and running each command
//! against the store. Running a command computes what to show; writing it
//! out (as text or JSON) happens outside the library.

pub mod agent;
pub mod capture;
pub mod complete;
pub mod inbox;
pub mod note;
pub mod project;
pub mod reminder;
pub mod report;
pub mod setup;
pub mod sync;
pub mod task;
pub mod todo;
pub mod track;

use vstd::prelude::*;

pub use agent::AgentCommand;
pub use capture::CaptureCommand;
pub use complete::CompletionShell;
pub use inbox::InboxCommand;
pub use note::NoteCommand;
pub use project::{OutputFormat, ProjectCommand};
pub use reminder::ReminderCommand;
pub use report::ReportCommand;
pub use setup::SetupArgs;
pub use sync::SyncCommand;
pub use task::TaskCommand;
pub use todo::TodoCommand;
pub use track::TrackCommand;

verus! {

/// The command line: one optional command (none opens the full-screen
/// interface).
#[derive(Debug)]
pub struct Cli {
    /// The command to run.
    pub command: Option<Commands>,
}

/// Every top-level command.
#[derive(Debug)]
pub enum Commands {
    /// Manage projects.
    Project(ProjectCommand),
    /// Manage tasks.
    Task(TaskCommand),
    /// Manage todos.
    Todo(TodoCommand),
    /// Time tracking.
    Track(TrackCommand),
    /// Capture a thought into the inbox.
    Capture(CaptureCommand),
    /// Manage the inbox.
    Inbox(InboxCommand),
    /// Manage reminders.
    Reminder(ReminderCommand),
    /// Manage notes.
    Note(NoteCommand),
    /// Reports.
    Report(ReportCommand),
    /// The background service.
    Service(crate::service::ServiceCommand),
    /// The reminder daemon.
    Daemon(crate::service::DaemonCommand),
    /// First-run setup.
    Setup(SetupArgs),
    /// Agent skill files.
    Agent(AgentCommand),
    /// Print a shell completion script.
    Completions(CompletionShell),
    /// Cloud sync.
    Sync(SyncCommand),
}

} // verus!
