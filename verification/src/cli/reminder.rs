//! `scribe reminder …`: add, list, show, archive, restore and delete
//! reminders.

use vstd::prelude::*;
use crate::cli::project::OutputFormat;
use crate::datetime::{instant_named, instant_of, TimeReading};
use crate::domain::{copy_opt_string, ProjectId, Reminder};
use crate::error::{Entity, ScribeError};
use crate::ops::projects::ProjectOps;
use crate::ops::reminders::{reminder_filter, CreateReminder, ReminderOps};
use crate::store::table::{has_key, key_index, lookup};
use crate::store::Store;

verus! {

/// `scribe reminder`.
#[derive(Debug)]
pub struct ReminderCommand {
    /// The subcommand.
    pub subcommand: ReminderSubcommand,
}

/// The `scribe reminder` subcommands.
#[derive(Debug)]
pub enum ReminderSubcommand {
    /// Add a reminder.
    Add(ReminderAdd),
    /// List reminders.
    List(ReminderList),
    /// Show a reminder.
    Show(ReminderShow),
    /// Archive a reminder.
    Archive(ReminderArchive),
    /// Restore an archived reminder.
    Restore(ReminderRestore),
    /// Delete an archived reminder.
    Delete(ReminderDelete),
}

/// `scribe reminder add`.
#[derive(Debug)]
pub struct ReminderAdd {
    /// Project slug.
    pub project: String,
    /// When to fire, in any form [`crate::datetime::parse_datetime`] reads.
    pub at: String,
    /// Optional linked task slug.
    pub task: Option<String>,
    /// Optional message.
    pub message: Option<String>,
    /// Output format.
    pub output: OutputFormat,
}

/// `scribe reminder list`.
#[derive(Debug)]
pub struct ReminderList {
    /// Only reminders of this project.
    pub project: Option<String>,
    /// Include archived reminders.
    pub archived: bool,
    /// Output format.
    pub output: OutputFormat,
}

/// `scribe reminder show`.
#[derive(Debug)]
pub struct ReminderShow {
    /// The reminder's slug.
    pub slug: String,
    /// Output format.
    pub output: OutputFormat,
}

/// `scribe reminder archive`.
#[derive(Debug)]
pub struct ReminderArchive {
    /// The reminder's slug.
    pub slug: String,
    /// Output format.
    pub output: OutputFormat,
}

/// `scribe reminder restore`.
#[derive(Debug)]
pub struct ReminderRestore {
    /// The reminder's slug.
    pub slug: String,
    /// Output format.
    pub output: OutputFormat,
}

/// `scribe reminder delete`.
#[derive(Debug)]
pub struct ReminderDelete {
    /// The reminder's slug.
    pub slug: String,
    /// Output format.
    pub output: OutputFormat,
}

/// What a reminder command produced.
#[derive(Debug)]
pub enum ReminderOutcome {
    /// The reminder created, shown, archived or restored.
    Reminder(Reminder),
    /// The reminders listed.
    Reminders(Vec<Reminder>),
    /// The slug of the deleted reminder.
    Deleted(String),
}

/// What running `cmd` on `old`, leaving `new`, may produce.
pub open spec fn reminder_run_done(
    cmd: ReminderCommand,
    at: TimeReading,
    old: &Store,
    new: &Store,
    r: Result<ReminderOutcome, ScribeError>,
) -> bool {
    &&& new.wf()
    &&& (r is Err ==> *new == *old)
    &&& match cmd.subcommand {
        ReminderSubcommand::Add(a) => {
            &&& (instant_named(a.at@, at) matches Err(m) ==> (r matches Err(e) && e is Input && e->Input_message@
                == m))
            &&& (r matches Ok(o) ==> o matches ReminderOutcome::Reminder(x) && {
                &&& instant_named(a.at@, at) == Ok::<i64, Seq<char>>(x.remind_at)
                &&& new.reminders@ == old.reminders@.push(x)
                &&& x.project_id == lookup(old.projects@, a.project@)->0.id
                &&& x.message == a.message
                &&& !x.fired && !x.persistent
                &&& new.only_reminders(old)
            })
        },
        ReminderSubcommand::List(a) => {
            &&& *new == *old
            &&& (r is Ok <==> match a.project { Some(p) => has_key(old.projects@, p@), None => true })
            &&& (r matches Ok(o) ==> o matches ReminderOutcome::Reminders(v) && v@ == old.reminders@.filter(
                reminder_filter(
                    match a.project {
                        Some(p) => Some(lookup(old.projects@, p@)->0.id),
                        None => None::<ProjectId>,
                    },
                    a.archived,
                ),
            ))
        },
        ReminderSubcommand::Show(a) => {
            &&& *new == *old
            &&& (r is Ok <==> has_key(old.reminders@, a.slug@))
            &&& (r matches Ok(o) ==> o matches ReminderOutcome::Reminder(x) && lookup(old.reminders@, a.slug@) == Some(x))
        },
        ReminderSubcommand::Archive(a) => {
            &&& (r is Ok <==> has_key(old.reminders@, a.slug@))
            &&& (r matches Ok(o) ==> o matches ReminderOutcome::Reminder(x) && x.archived_at is Some)
        },
        ReminderSubcommand::Restore(a) => {
            &&& (r is Ok <==> has_key(old.reminders@, a.slug@))
            &&& (r matches Ok(o) ==> o matches ReminderOutcome::Reminder(x) && x.archived_at is None)
        },
        ReminderSubcommand::Delete(a) => {
            &&& (r is Ok <==> has_key(old.reminders@, a.slug@) && lookup(old.reminders@, a.slug@)->0.archived_at is Some)
            &&& (r matches Ok(o) ==> o matches ReminderOutcome::Deleted(s) && s == a.slug && new.reminders@
                == old.reminders@.remove(key_index(old.reminders@, a.slug@)))
        },
    }
}

/// Runs a `scribe reminder` command against the store; `at` is the clock
/// and time zone as read for the fire time of `add`.
pub fn run(
    cmd: &ReminderCommand,
    at: &TimeReading,
    ops: &ReminderOps,
    project_ops: &ProjectOps,
    store: &mut Store,
) -> (r: Result<ReminderOutcome, ScribeError>)
    requires
        old(store).wf(),
    ensures
        reminder_run_done(*cmd, *at, old(store), final(store), r),
{
    match &cmd.subcommand {
        ReminderSubcommand::Add(a) => {
            let remind_at = match instant_of(a.at.as_str(), at) {
                Ok(t) => t,
                Err(m) => {
                    return Err(ScribeError::Input { message: m });
                },
            };
            let params = CreateReminder {
                project_slug: a.project.clone(),
                task_slug: copy_opt_string(&a.task),
                remind_at,
                message: copy_opt_string(&a.message),
                persistent: false,
            };
            match ops.create(store, params) {
                Ok(x) => Ok(ReminderOutcome::Reminder(x)),
                Err(e) => Err(e),
            }
        },
        ReminderSubcommand::List(a) => {
            let project_id = match &a.project {
                Some(slug) => match project_ops.get_project(store, slug.as_str()) {
                    Some(p) => Some(p.id),
                    None => {
                        return Err(ScribeError::NotFound { entity: Entity::Project, slug: slug.clone() });
                    },
                },
                None => None,
            };
            Ok(ReminderOutcome::Reminders(ops.list(store, project_id, a.archived)))
        },
        ReminderSubcommand::Show(a) => match ops.get(store, a.slug.as_str()) {
            Some(x) => Ok(ReminderOutcome::Reminder(x)),
            None => Err(ScribeError::NotFound { entity: Entity::Reminder, slug: a.slug.clone() }),
        },
        ReminderSubcommand::Archive(a) => match ops.archive(store, a.slug.as_str()) {
            Ok(x) => Ok(ReminderOutcome::Reminder(x)),
            Err(e) => Err(e),
        },
        ReminderSubcommand::Restore(a) => match ops.restore(store, a.slug.as_str()) {
            Ok(x) => Ok(ReminderOutcome::Reminder(x)),
            Err(e) => Err(e),
        },
        ReminderSubcommand::Delete(a) => match ops.delete(store, a.slug.as_str()) {
            Ok(()) => Ok(ReminderOutcome::Deleted(a.slug.clone())),
            Err(e) => Err(e),
        },
    }
}

} // verus!
