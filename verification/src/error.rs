//! Errors of the operations layer, each with its user-facing message.

use vstd::prelude::*;
use crate::domain::slug::{collision_message, SlugError, SlugErrorKind};
use crate::text::{push_decimal, push_signed_decimal, push_str, signed_decimal, string_of};

verus! {

/// The kinds of stored entity.
#[derive(Debug, Clone, Copy, PartialEq, Eq, Structural)]
pub enum Entity {
    /// A project.
    Project,
    /// A task.
    Task,
    /// A todo.
    Todo,
    /// A time entry.
    TimeEntry,
    /// A reminder.
    Reminder,
    /// An inbox capture item.
    CaptureItem,
    /// A note.
    Note,
}

/// How an entity is named in messages.
pub open spec fn entity_name(e: Entity) -> Seq<char> {
    match e {
        Entity::Project => "project"@,
        Entity::Task => "task"@,
        Entity::Todo => "todo"@,
        Entity::TimeEntry => "time entry"@,
        Entity::Reminder => "reminder"@,
        Entity::CaptureItem => "capture item"@,
        Entity::Note => "note"@,
    }
}

/// How a collection of entities is named in messages.
pub open spec fn entity_plural(e: Entity) -> Seq<char> {
    match e {
        Entity::Project => "projects"@,
        Entity::Task => "tasks"@,
        Entity::Todo => "todos"@,
        Entity::TimeEntry => "time entries"@,
        Entity::Reminder => "reminders"@,
        Entity::CaptureItem => "capture items"@,
        Entity::Note => "notes"@,
    }
}

impl Entity {
    /// How the entity is named in messages.
    pub fn name(&self) -> (r: &'static str)
        ensures
            r@ == entity_name(*self),
    {
        match self {
            Entity::Project => "project",
            Entity::Task => "task",
            Entity::Todo => "todo",
            Entity::TimeEntry => "time entry",
            Entity::Reminder => "reminder",
            Entity::CaptureItem => "capture item",
            Entity::Note => "note",
        }
    }

    /// How a collection of the entity is named in messages.
    pub fn plural(&self) -> (r: &'static str)
        ensures
            r@ == entity_plural(*self),
    {
        match self {
            Entity::Project => "projects",
            Entity::Task => "tasks",
            Entity::Todo => "todos",
            Entity::TimeEntry => "time entries",
            Entity::Reminder => "reminders",
            Entity::CaptureItem => "capture items",
            Entity::Note => "notes",
        }
    }
}

/// What a reserved project refused.
#[derive(Debug, Clone, Copy, PartialEq, Eq, Structural)]
pub enum Refused {
    /// Archiving.
    Archive,
    /// Deleting.
    Delete,
}

/// Why an operation failed.
#[derive(Debug, Clone, PartialEq, Eq)]
pub enum ScribeError {
    /// No entity of that kind has the slug.
    NotFound { entity: Entity, slug: String },
    /// An entity of that kind already has the slug.
    DuplicateSlug { entity: Entity, slug: String },
    /// The project is archived; `adding` names what was being added to it.
    ProjectArchived { slug: String, adding: Option<Entity> },
    /// The task is archived.
    TaskArchived { slug: String },
    /// The project is reserved.
    Reserved { slug: String, refused: Refused },
    /// The project still has tasks, todos, time entries or reminders.
    HasLinkedItems { slug: String },
    /// Only archived entities of this kind may be deleted.
    NotArchived { entity: Entity, slug: String },
    /// A task title is empty after trimming.
    EmptyTitle,
    /// A capture body is empty after trimming.
    EmptyBody,
    /// A timer is already running, for `elapsed` seconds.
    TimerRunning { slug: String, elapsed: i64 },
    /// No timer is running.
    NoTimer,
    /// No unique slug could be found.
    Slug(SlugError),
    /// The referenced project id does not exist.
    MissingProject { id: i64 },
    /// Every id of a table has been handed out.
    IdsExhausted,
    /// A time could not be written as a calendar date and time.
    TimeOutOfRange,
    /// An argument could not be read; the message says why.
    Input { message: String },
}

/// Truncating division, as Rust's `/` on signed integers.
pub open spec fn tdiv(a: int, d: int) -> int {
    if a >= 0 { a / d } else { -((-a) / d) }
}

/// Remainder of truncating division, as Rust's `%` on signed integers.
pub open spec fn trem(a: int, d: int) -> int {
    if a >= 0 { a % d } else { -((-a) % d) }
}

/// The message of an error.
pub open spec fn error_message(e: ScribeError) -> Seq<char> {
    match e {
        ScribeError::NotFound { entity, slug } => entity_name(entity) + " '"@ + slug@
            + "' not found"@,
        ScribeError::DuplicateSlug { entity, slug } => entity_name(entity) + " '"@ + slug@
            + "' already exists"@,
        ScribeError::ProjectArchived { slug, adding } => match adding {
            Some(x) => "project '"@ + slug@ + "' is archived; restore it before adding "@
                + entity_plural(x),
            None => "project '"@ + slug@ + "' is archived; restore it first"@,
        },
        ScribeError::TaskArchived { slug } => "task '"@ + slug@
            + "' is archived; restore it first"@,
        ScribeError::Reserved { slug, refused } => "project '"@ + slug@
            + "' is reserved and cannot be "@ + match refused {
            Refused::Archive => "archived"@,
            Refused::Delete => "deleted"@,
        },
        ScribeError::HasLinkedItems { slug } => "project '"@ + slug@
            + "' still has linked items; archive and remove them first"@,
        ScribeError::NotArchived { entity, slug } => entity_name(entity) + " '"@ + slug@
            + "' must be archived before deletion"@,
        ScribeError::EmptyTitle => "task title cannot be empty"@,
        ScribeError::EmptyBody => "capture body must not be empty"@,
        ScribeError::TimerRunning { slug, elapsed } => "timer '"@ + slug@
            + "' is already running ("@ + signed_decimal(tdiv(elapsed as int, 60)) + "m "@
            + signed_decimal(trem(elapsed as int, 60))
            + "s elapsed); stop it first with `scribe track stop`"@,
        ScribeError::NoTimer => "no timer is currently running"@,
        ScribeError::Slug(e) => "slug generation failed: "@ + collision_message(
            e.kind->candidate@,
            e.kind->attempts as nat,
        ),
        ScribeError::MissingProject { id } => "project id "@ + signed_decimal(id as int)
            + " does not exist"@,
        ScribeError::IdsExhausted => "no ids are left to hand out"@,
        ScribeError::TimeOutOfRange => "time is out of the calendar's range"@,
        ScribeError::Input { message } => message@,
    }
}

impl ScribeError {
    /// The user-facing message of the error.
    pub fn to_string(&self) -> (r: String)
        ensures
            r@ == error_message(*self),
    {
        let mut out: Vec<char> = Vec::new();
        match self {
            ScribeError::NotFound { entity, slug } => {
                push_str(&mut out, entity.name());
                push_str(&mut out, " '");
                push_str(&mut out, slug.as_str());
                push_str(&mut out, "' not found");
            },
            ScribeError::DuplicateSlug { entity, slug } => {
                push_str(&mut out, entity.name());
                push_str(&mut out, " '");
                push_str(&mut out, slug.as_str());
                push_str(&mut out, "' already exists");
            },
            ScribeError::ProjectArchived { slug, adding } => {
                push_str(&mut out, "project '");
                push_str(&mut out, slug.as_str());
                match adding {
                    Some(x) => {
                        push_str(&mut out, "' is archived; restore it before adding ");
                        push_str(&mut out, x.plural());
                    },
                    None => {
                        push_str(&mut out, "' is archived; restore it first");
                    },
                }
            },
            ScribeError::TaskArchived { slug } => {
                push_str(&mut out, "task '");
                push_str(&mut out, slug.as_str());
                push_str(&mut out, "' is archived; restore it first");
            },
            ScribeError::Reserved { slug, refused } => {
                push_str(&mut out, "project '");
                push_str(&mut out, slug.as_str());
                push_str(&mut out, "' is reserved and cannot be ");
                match refused {
                    Refused::Archive => push_str(&mut out, "archived"),
                    Refused::Delete => push_str(&mut out, "deleted"),
                }
            },
            ScribeError::HasLinkedItems { slug } => {
                push_str(&mut out, "project '");
                push_str(&mut out, slug.as_str());
                push_str(&mut out, "' still has linked items; archive and remove them first");
            },
            ScribeError::NotArchived { entity, slug } => {
                push_str(&mut out, entity.name());
                push_str(&mut out, " '");
                push_str(&mut out, slug.as_str());
                push_str(&mut out, "' must be archived before deletion");
            },
            ScribeError::EmptyTitle => {
                push_str(&mut out, "task title cannot be empty");
            },
            ScribeError::EmptyBody => {
                push_str(&mut out, "capture body must not be empty");
            },
            ScribeError::TimerRunning { slug, elapsed } => {
                let e = *elapsed;
                let (m, s): (i64, i64) = if e >= 0 {
                    (e / 60, e % 60)
                } else if e == i64::MIN {
                    (-153722867280912930i64, -8i64)
                } else {
                    (-((-e) / 60), -((-e) % 60))
                };
                assert(m == tdiv(e as int, 60) && s == trem(e as int, 60));
                push_str(&mut out, "timer '");
                push_str(&mut out, slug.as_str());
                push_str(&mut out, "' is already running (");
                push_signed_decimal(&mut out, m);
                push_str(&mut out, "m ");
                push_signed_decimal(&mut out, s);
                push_str(&mut out, "s elapsed); stop it first with `scribe track stop`");
            },
            ScribeError::NoTimer => {
                push_str(&mut out, "no timer is currently running");
            },
            ScribeError::Slug(e) => {
                push_str(&mut out, "slug generation failed: ");
                match &e.kind {
                    SlugErrorKind::CollisionLimit { candidate, attempts } => {
                        push_str(&mut out, "slug '");
                        push_str(&mut out, candidate.as_str());
                        push_str(&mut out, "' collided on all ");
                        push_decimal(&mut out, *attempts as u64);
                        push_str(&mut out, " attempts; the namespace may be exhausted");
                    },
                }
            },
            ScribeError::MissingProject { id } => {
                push_str(&mut out, "project id ");
                push_signed_decimal(&mut out, *id);
                push_str(&mut out, " does not exist");
            },
            ScribeError::IdsExhausted => {
                push_str(&mut out, "no ids are left to hand out");
            },
            ScribeError::TimeOutOfRange => {
                push_str(&mut out, "time is out of the calendar's range");
            },
            ScribeError::Input { message } => {
                push_str(&mut out, message.as_str());
            },
        }
        assert(out@ =~= error_message(*self));
        string_of(&out)
    }
}

} // verus!
