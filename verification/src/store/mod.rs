//! The in-memory store: one table per entity, with the rules the schema
//! enforces (unique slugs, fresh ids), and the seeded inbox project.

pub mod records;
pub mod table;

use vstd::prelude::*;
use crate::domain::{
    CaptureItem, Link, Note, Project, ProjectId, ProjectStatus, Reminder, Task, TimeEntry, Todo,
};

pub use table::{Archivable, Owned, Record, Table};

verus! {

/// The slug of the reserved inbox project every store starts with.
pub open spec fn quick_capture_slug() -> Seq<char> {
    "quick-capture"@
}

/// `p` is the reserved inbox project as seeded at `now`.
pub open spec fn is_quick_capture(p: Project, now: i64) -> bool {
    &&& p.id == ProjectId(1)
    &&& p.slug@ == quick_capture_slug()
    &&& p.name@ == "Quick Capture"@
    &&& p.description is None
    &&& p.status == ProjectStatus::Active
    &&& p.is_reserved
    &&& p.archived_at is None
    &&& p.created_at == now
    &&& p.updated_at == now
}

/// Every entity table, and the links between notes.
pub struct Store {
    /// Projects.
    pub projects: Table<Project>,
    /// Tasks.
    pub tasks: Table<Task>,
    /// Todos.
    pub todos: Table<Todo>,
    /// Time entries.
    pub entries: Table<TimeEntry>,
    /// Reminders.
    pub reminders: Table<Reminder>,
    /// Inbox capture items.
    pub captures: Table<CaptureItem>,
    /// Notes.
    pub notes: Table<Note>,
    /// Links between notes.
    pub links: Vec<Link>,
    /// The id the next link gets.
    pub next_link_id: i64,
}

impl Store {
    /// Every table keeps unique slugs and fresh ids.
    pub open spec fn wf(&self) -> bool {
        &&& self.projects.wf()
        &&& self.tasks.wf()
        &&& self.todos.wf()
        &&& self.entries.wf()
        &&& self.reminders.wf()
        &&& self.captures.wf()
        &&& self.notes.wf()
        &&& 1 <= self.next_link_id
    }

    /// Only the project table differs between the two stores.
    pub open spec fn only_projects(&self, o: &Store) -> bool {
        &&& self.tasks == o.tasks
        &&& self.todos == o.todos
        &&& self.entries == o.entries
        &&& self.reminders == o.reminders
        &&& self.captures == o.captures
        &&& self.notes == o.notes
        &&& self.links == o.links
        &&& self.next_link_id == o.next_link_id
    }

    /// Only the task table differs between the two stores.
    pub open spec fn only_tasks(&self, o: &Store) -> bool {
        &&& self.projects == o.projects
        &&& self.todos == o.todos
        &&& self.entries == o.entries
        &&& self.reminders == o.reminders
        &&& self.captures == o.captures
        &&& self.notes == o.notes
        &&& self.links == o.links
        &&& self.next_link_id == o.next_link_id
    }

    /// Only the todo table differs between the two stores.
    pub open spec fn only_todos(&self, o: &Store) -> bool {
        &&& self.projects == o.projects
        &&& self.tasks == o.tasks
        &&& self.entries == o.entries
        &&& self.reminders == o.reminders
        &&& self.captures == o.captures
        &&& self.notes == o.notes
        &&& self.links == o.links
        &&& self.next_link_id == o.next_link_id
    }

    /// Only the time-entry table differs between the two stores.
    pub open spec fn only_entries(&self, o: &Store) -> bool {
        &&& self.projects == o.projects
        &&& self.tasks == o.tasks
        &&& self.todos == o.todos
        &&& self.reminders == o.reminders
        &&& self.captures == o.captures
        &&& self.notes == o.notes
        &&& self.links == o.links
        &&& self.next_link_id == o.next_link_id
    }

    /// Only the reminder table differs between the two stores.
    pub open spec fn only_reminders(&self, o: &Store) -> bool {
        &&& self.projects == o.projects
        &&& self.tasks == o.tasks
        &&& self.todos == o.todos
        &&& self.entries == o.entries
        &&& self.captures == o.captures
        &&& self.notes == o.notes
        &&& self.links == o.links
        &&& self.next_link_id == o.next_link_id
    }

    /// Only the capture table differs between the two stores.
    pub open spec fn only_captures(&self, o: &Store) -> bool {
        &&& self.projects == o.projects
        &&& self.tasks == o.tasks
        &&& self.todos == o.todos
        &&& self.entries == o.entries
        &&& self.reminders == o.reminders
        &&& self.notes == o.notes
        &&& self.links == o.links
        &&& self.next_link_id == o.next_link_id
    }

    /// Only the links differ between the two stores.
    pub open spec fn only_links(&self, o: &Store) -> bool {
        &&& self.projects == o.projects
        &&& self.tasks == o.tasks
        &&& self.todos == o.todos
        &&& self.entries == o.entries
        &&& self.reminders == o.reminders
        &&& self.captures == o.captures
        &&& self.notes == o.notes
    }

    /// The store holds nothing but the reserved `quick-capture` project,
    /// seeded at `now`.
    pub open spec fn is_fresh(self, now: i64) -> bool {
        &&& self.projects@.len() == 1
        &&& is_quick_capture(self.projects@[0], now)
        &&& self.tasks@.len() == 0
        &&& self.todos@.len() == 0
        &&& self.entries@.len() == 0
        &&& self.reminders@.len() == 0
        &&& self.captures@.len() == 0
        &&& self.notes@.len() == 0
        &&& self.links@.len() == 0
    }

    /// A store holding only the reserved `quick-capture` project, seeded at
    /// `now`.
    pub fn new(now: i64) -> (s: Store)
        ensures
            s.wf(),
            s.is_fresh(now),
            s.projects@.len() == 1,
            is_quick_capture(s.projects@[0], now),
            s.projects.next() == 2,
            s.tasks@.len() == 0,
            s.todos@.len() == 0,
            s.entries@.len() == 0,
            s.reminders@.len() == 0,
            s.captures@.len() == 0,
            s.notes@.len() == 0,
            s.links@.len() == 0,
    {
        let mut projects: Table<Project> = Table::new();
        let qc = Project {
            id: ProjectId(1),
            slug: "quick-capture".to_owned(),
            name: "Quick Capture".to_owned(),
            description: None,
            status: ProjectStatus::Active,
            is_reserved: true,
            archived_at: None,
            created_at: now,
            updated_at: now,
        };
        projects.insert(qc);
        Store {
            projects,
            tasks: Table::new(),
            todos: Table::new(),
            entries: Table::new(),
            reminders: Table::new(),
            captures: Table::new(),
            notes: Table::new(),
            links: Vec::new(),
            next_link_id: 1,
        }
    }
}

} // verus!
