//! Reminder operations: creation under an open project (and optionally an
//! open task), firing due reminders, and deletion of archived ones only.

use vstd::prelude::*;
use crate::clock::{now_unix, utc_stamp, utc_stamp_of};
use crate::domain::slug::{generate, slug_title};
use crate::domain::{ProjectId, Reminder, ReminderId, ReminderPatch, TaskId};
use crate::error::{Entity, ScribeError};
use crate::ops::{fresh_slug_for, suffixes_taken, unique_slug};
use crate::store::table::{has_key, key_index, lookup, lemma_filter_step};
use crate::store::{Archivable, Record, Store};
use crate::text::{push_str, string_of};

verus! {

/// Parameters for creating a reminder.
#[derive(Debug, Clone)]
pub struct CreateReminder {
    /// Owning project slug.
    pub project_slug: String,
    /// Optional linked task slug.
    pub task_slug: Option<String>,
    /// When the reminder should fire, in seconds since the epoch.
    pub remind_at: i64,
    /// Optional message to display.
    pub message: Option<String>,
    /// Whether the notification waits to be dismissed.
    pub persistent: bool,
}

/// The text a reminder's slug is made from: its message, or else its fire
/// time as a compact UTC stamp.
pub open spec fn reminder_slug_source(params: CreateReminder) -> Option<Seq<char>> {
    match params.message {
        Some(m) => Some(m@),
        None => utc_stamp(params.remind_at),
    }
}

/// The slug a reminder in project `project` made from `source` starts from.
pub open spec fn reminder_slug_base(project: Seq<char>, source: Seq<char>) -> Seq<char> {
    project + "-reminder-"@ + slug_title(source)
}

/// The linked task named by the request exists and is not archived.
pub open spec fn reminder_task_ok(s: &Store, params: CreateReminder) -> bool {
    match params.task_slug {
        Some(t) => has_key(s.tasks@, t@) && lookup(s.tasks@, t@)->0.archived_at is None,
        None => true,
    }
}

/// The request names an open project, an open task if any, and a slug
/// source.
pub open spec fn valid_reminder_request(s: &Store, params: CreateReminder) -> bool {
    &&& has_key(s.projects@, params.project_slug@)
    &&& lookup(s.projects@, params.project_slug@)->0.archived_at is None
    &&& reminder_task_ok(s, params)
    &&& reminder_slug_source(params) is Some
}

/// Whether a reminder passes the list filters.
pub open spec fn reminder_listed(r: Reminder, project_id: Option<ProjectId>, include_archived: bool) -> bool {
    &&& (match project_id { Some(p) => r.project_id == p, None => true })
    &&& (include_archived || r.archived_at is None)
}

/// The reminder list filter as a predicate.
pub open spec fn reminder_filter(project_id: Option<ProjectId>, include_archived: bool) -> spec_fn(Reminder) -> bool {
    |r: Reminder| reminder_listed(r, project_id, include_archived)
}

/// A reminder is due at `now`: not fired, not archived, and its time has
/// come.
pub open spec fn is_due(r: Reminder, now: i64) -> bool {
    !r.fired && r.archived_at is None && r.remind_at <= now
}

/// The due test as a predicate.
pub open spec fn due_at(now: i64) -> spec_fn(Reminder) -> bool {
    |r: Reminder| is_due(r, now)
}

/// The reminder marked as fired.
pub open spec fn fired(r: Reminder) -> Reminder {
    Reminder { fired: true, ..r }
}

/// A reminder as checking at `now` leaves it.
pub open spec fn after_check(r: Reminder, now: i64) -> Reminder {
    if is_due(r, now) { fired(r) } else { r }
}

/// Every reminder as checking at `now` leaves it.
pub open spec fn checked_at(rows: Seq<Reminder>, now: i64) -> Seq<Reminder> {
    Seq::new(rows.len(), |i: int| after_check(rows[i], now))
}

/// The reminders checking at `now` fires, as they are after firing.
pub open spec fn fired_at(rows: Seq<Reminder>, now: i64) -> Seq<Reminder> {
    rows.filter(due_at(now)).map_values(|r: Reminder| fired(r))
}

/// Reminder `r` after `patch`.
pub open spec fn patched_reminder(r: Reminder, patch: ReminderPatch) -> Reminder {
    Reminder {
        remind_at: match patch.remind_at { Some(t) => t, None => r.remind_at },
        message: match patch.message { Some(m) => Some(m), None => r.message },
        persistent: match patch.persistent { Some(p) => p, None => r.persistent },
        ..r
    }
}

/// Reminder operations with project and task validation.
#[derive(Debug, Clone, Copy)]
pub struct ReminderOps;

impl ReminderOps {
    /// A handle for reminder operations.
    pub fn new() -> (r: ReminderOps) {
        ReminderOps
    }

    /// Creates a reminder in the project named by `params.project_slug`,
    /// linked to the task named by `params.task_slug` if any. The slug is
    /// made from `{project_slug}-reminder-` and the message, or the fire
    /// time when there is no message.
    pub fn create(&self, store: &mut Store, params: CreateReminder) -> (r: Result<Reminder, ScribeError>)
        requires
            old(store).wf(),
        ensures
            final(store).wf(),
            r is Ok ==> valid_reminder_request(old(store), params),
            valid_reminder_request(old(store), params) && !has_key(
                old(store).reminders@,
                reminder_slug_base(params.project_slug@, reminder_slug_source(params)->0),
            ) && old(store).reminders.next() < i64::MAX ==> r is Ok,
            r matches Ok(x) ==> {
                &&& x.id == ReminderId(old(store).reminders.next())
                &&& fresh_slug_for(
                    old(store).reminders@,
                    reminder_slug_base(params.project_slug@, reminder_slug_source(params)->0),
                    x.slug@,
                )
                &&& x.project_id == lookup(old(store).projects@, params.project_slug@)->0.id
                &&& x.task_id == match params.task_slug {
                    Some(t) => Some(lookup(old(store).tasks@, t@)->0.id),
                    None => None::<TaskId>,
                }
                &&& x.remind_at == params.remind_at
                &&& x.message == params.message
                &&& x.persistent == params.persistent
                &&& !x.fired
                &&& x.archived_at is None
                &&& final(store).reminders@ == old(store).reminders@.push(x)
                &&& final(store).reminders.next() == old(store).reminders.next() + 1
                &&& final(store).only_reminders(old(store))
            },
            r matches Err(e) ==> *final(store) == *old(store),
            r matches Err(e) ==> (e is ProjectArchived <==> has_key(old(store).projects@, params.project_slug@)
                && lookup(old(store).projects@, params.project_slug@)->0.archived_at is Some),
            r matches Err(e) ==> (e is TaskArchived ==> !reminder_task_ok(old(store), params)),
            r matches Err(e) ==> (e is TimeOutOfRange ==> reminder_slug_source(params) is None),
            r matches Err(e) ==> (e is Slug ==> has_key(
                old(store).reminders@,
                reminder_slug_base(params.project_slug@, reminder_slug_source(params)->0),
            ) && suffixes_taken(
                old(store).reminders@,
                reminder_slug_base(params.project_slug@, reminder_slug_source(params)->0),
            )),
            r matches Err(e) ==> (e is IdsExhausted ==> old(store).reminders.next() == i64::MAX),
            r matches Err(e) ==> (e is NotFound ==> !has_key(old(store).projects@, params.project_slug@)
                || !reminder_task_ok(old(store), params)),
            !has_key(old(store).projects@, params.project_slug@) ==> (r matches Err(e) && e == (
            ScribeError::NotFound { entity: Entity::Project, slug: params.project_slug })),
    {
        let project = match store.projects.get(params.project_slug.as_str()) {
            Some(p) => p,
            None => {
                return Err(ScribeError::NotFound { entity: Entity::Project, slug: params.project_slug });
            },
        };
        if project.archived_at.is_some() {
            return Err(ScribeError::ProjectArchived {
                slug: params.project_slug,
                adding: Some(Entity::Reminder),
            });
        }
        let task_id = match &params.task_slug {
            Some(ts) => {
                let task = match store.tasks.get(ts.as_str()) {
                    Some(t) => t,
                    None => {
                        return Err(ScribeError::NotFound { entity: Entity::Task, slug: ts.clone() });
                    },
                };
                if task.archived_at.is_some() {
                    return Err(ScribeError::TaskArchived { slug: ts.clone() });
                }
                Some(task.id)
            },
            None => None,
        };
        let source = match &params.message {
            Some(m) => m.clone(),
            None => match utc_stamp_of(params.remind_at) {
                Some(s) => s,
                None => {
                    return Err(ScribeError::TimeOutOfRange);
                },
            },
        };
        let mut prefix: Vec<char> = Vec::new();
        push_str(&mut prefix, params.project_slug.as_str());
        push_str(&mut prefix, "-reminder-");
        let prefix = string_of(&prefix);
        let base = generate(prefix.as_str(), source.as_str());
        proof {
            assert(base@ =~= reminder_slug_base(params.project_slug@, reminder_slug_source(params)->0));
        }
        let slug = match unique_slug(&store.reminders, base.as_str()) {
            Ok(s) => s,
            Err(e) => {
                return Err(e);
            },
        };
        let id = store.reminders.next_id();
        if id == i64::MAX {
            return Err(ScribeError::IdsExhausted);
        }
        let now = now_unix();
        let x = Reminder {
            id: ReminderId(id),
            slug,
            project_id: project.id,
            task_id,
            remind_at: params.remind_at,
            message: params.message,
            fired: false,
            persistent: params.persistent,
            archived_at: None,
            created_at: now,
        };
        store.reminders.insert(x.duplicate());
        Ok(x)
    }

    /// The reminder with slug `reminder_slug`, if any.
    pub fn get(&self, store: &Store, reminder_slug: &str) -> (r: Option<Reminder>)
        requires
            store.wf(),
        ensures
            r == lookup(store.reminders@, reminder_slug@),
    {
        store.reminders.get(reminder_slug)
    }

    /// Reminders of the given project (any when `None`), archived ones only
    /// when `include_archived`.
    pub fn list(&self, store: &Store, project_id: Option<ProjectId>, include_archived: bool) -> (r: Vec<
        Reminder,
    >)
        requires
            store.wf(),
        ensures
            r@ == store.reminders@.filter(reminder_filter(project_id, include_archived)),
    {
        let keep = |x: &Reminder| -> (b: bool)
            ensures
                b == reminder_listed(*x, project_id, include_archived),
            {
                let p_ok = match project_id {
                    Some(p) => x.project_id == p,
                    None => true,
                };
                p_ok && (include_archived || x.archived_at.is_none())
            };
        store.reminders.select(keep, Ghost(reminder_filter(project_id, include_archived)))
    }

    /// Fires every reminder due now: each is marked fired and returned.
    pub fn check_due(&self, store: &mut Store) -> (r: Vec<Reminder>)
        requires
            old(store).wf(),
        ensures
            final(store).wf(),
            exists|now: i64| {
                &&& final(store).reminders@ == checked_at(old(store).reminders@, now)
                &&& r@ == fired_at(old(store).reminders@, now)
            },
            final(store).only_reminders(old(store)),
    {
        let now = now_unix();
        self.check_due_at(store, now)
    }

    /// Fires every reminder due at `now`: each one not fired, not archived
    /// and with a time at or before `now` is marked fired, and the fired
    /// reminders are returned in table order.
    pub fn check_due_at(&self, store: &mut Store, now: i64) -> (r: Vec<Reminder>)
        requires
            old(store).wf(),
        ensures
            final(store).wf(),
            final(store).reminders@ == checked_at(old(store).reminders@, now),
            final(store).reminders.next() == old(store).reminders.next(),
            r@ == fired_at(old(store).reminders@, now),
            final(store).only_reminders(old(store)),
    {
        let mut out: Vec<Reminder> = Vec::new();
        let n = store.reminders.rows().len();
        let mut i: usize = 0;
        let ghost rows = old(store).reminders@;
        while i < n
            invariant
                n == rows.len(),
                n == store.reminders@.len(),
                rows == old(store).reminders@,
                0 <= i <= n,
                store.wf(),
                store.only_reminders(old(store)),
                store.reminders.next() == old(store).reminders.next(),
                forall|j: int| 0 <= j < i ==> #[trigger] store.reminders@[j] == after_check(rows[j], now),
                forall|j: int| i <= j < n ==> #[trigger] store.reminders@[j] == rows[j],
                out@ == rows.take(i as int).filter(due_at(now)).map_values(|x: Reminder| fired(x)),
            decreases n - i,
        {
            proof {
                lemma_filter_step(rows, due_at(now), i as int);
            }
            let cur = store.reminders.rows()[i].duplicate();
            if !cur.fired && cur.archived_at.is_none() && cur.remind_at <= now {
                let f = Reminder { fired: true, ..cur };
                proof {
                    assert(f.key() == store.reminders@[i as int].key());
                    assert forall|j: int| 0 <= j < store.reminders@.len() && j != i implies #[trigger] store.reminders@[j].key() != f.key() by {
                        assert(store.reminders@[j].key() != store.reminders@[i as int].key());
                    }
                }
                store.reminders.replace(i, f.duplicate());
                out.push(f);
                proof {
                    let prev = rows.take(i as int).filter(due_at(now));
                    assert(prev.push(rows[i as int]).map_values(|x: Reminder| fired(x))
                        =~= prev.map_values(|x: Reminder| fired(x)).push(fired(rows[i as int])));
                }
            }
            i = i + 1;
        }
        proof {
            assert(rows.take(n as int) =~= rows);
            assert(store.reminders@ =~= checked_at(rows, now));
        }
        out
    }

    /// Applies `patch` to the reminder with slug `reminder_slug`.
    pub fn update(&self, store: &mut Store, reminder_slug: &str, patch: ReminderPatch) -> (r: Result<
        Reminder,
        ScribeError,
    >)
        requires
            old(store).wf(),
        ensures
            final(store).wf(),
            r is Ok <==> has_key(old(store).reminders@, reminder_slug@),
            r matches Ok(x) ==> {
                let i = key_index(old(store).reminders@, reminder_slug@);
                &&& x == patched_reminder(old(store).reminders@[i], patch)
                &&& final(store).reminders@ == old(store).reminders@.update(i, x)
                &&& final(store).only_reminders(old(store))
            },
            r matches Err(e) ==> *final(store) == *old(store) && e is NotFound,
    {
        let i = match store.reminders.find(reminder_slug) {
            Some(i) => i,
            None => {
                return Err(ScribeError::NotFound { entity: Entity::Reminder, slug: reminder_slug.to_owned() });
            },
        };
        let cur = store.reminders.rows()[i].duplicate();
        let x = Reminder {
            remind_at: match patch.remind_at { Some(t) => t, None => cur.remind_at },
            message: match patch.message { Some(m) => Some(m), None => cur.message },
            persistent: match patch.persistent { Some(p) => p, None => cur.persistent },
            ..cur
        };
        store.reminders.replace(i, x.duplicate());
        Ok(x)
    }

    /// Archives the reminder with slug `reminder_slug`.
    pub fn archive(&self, store: &mut Store, reminder_slug: &str) -> (r: Result<Reminder, ScribeError>)
        requires
            old(store).wf(),
        ensures
            final(store).wf(),
            r is Ok <==> has_key(old(store).reminders@, reminder_slug@),
            r matches Ok(x) ==> {
                let i = key_index(old(store).reminders@, reminder_slug@);
                &&& x.archived_at is Some
                &&& x == old(store).reminders@[i].archived_as(x.archived_at, x.archived_at->0)
                &&& final(store).reminders@ == old(store).reminders@.update(i, x)
                &&& final(store).only_reminders(old(store))
            },
            r matches Err(e) ==> *final(store) == *old(store) && e is NotFound,
    {
        let i = match store.reminders.find(reminder_slug) {
            Some(i) => i,
            None => {
                return Err(ScribeError::NotFound { entity: Entity::Reminder, slug: reminder_slug.to_owned() });
            },
        };
        let now = now_unix();
        store.reminders.set_archived_at(i, Some(now), now);
        Ok(store.reminders.rows()[i].duplicate())
    }

    /// Restores the archived reminder with slug `reminder_slug`.
    pub fn restore(&self, store: &mut Store, reminder_slug: &str) -> (r: Result<Reminder, ScribeError>)
        requires
            old(store).wf(),
        ensures
            final(store).wf(),
            r is Ok <==> has_key(old(store).reminders@, reminder_slug@),
            r matches Ok(x) ==> {
                let i = key_index(old(store).reminders@, reminder_slug@);
                &&& x == old(store).reminders@[i].archived_as(None, 0)
                &&& final(store).reminders@ == old(store).reminders@.update(i, x)
                &&& final(store).only_reminders(old(store))
            },
            r matches Err(e) ==> *final(store) == *old(store) && e is NotFound,
    {
        let i = match store.reminders.find(reminder_slug) {
            Some(i) => i,
            None => {
                return Err(ScribeError::NotFound { entity: Entity::Reminder, slug: reminder_slug.to_owned() });
            },
        };
        store.reminders.set_archived_at(i, None, 0);
        Ok(store.reminders.rows()[i].duplicate())
    }

    /// Deletes the reminder with slug `reminder_slug`; only archived
    /// reminders may be deleted.
    pub fn delete(&self, store: &mut Store, reminder_slug: &str) -> (r: Result<(), ScribeError>)
        requires
            old(store).wf(),
        ensures
            final(store).wf(),
            r is Ok <==> has_key(old(store).reminders@, reminder_slug@) && lookup(
                old(store).reminders@,
                reminder_slug@,
            )->0.archived_at is Some,
            r is Ok ==> final(store).reminders@ == old(store).reminders@.remove(
                key_index(old(store).reminders@, reminder_slug@),
            ) && final(store).only_reminders(old(store)),
            r matches Err(e) ==> *final(store) == *old(store),
            r matches Err(e) ==> (e is NotFound <==> !has_key(old(store).reminders@, reminder_slug@)),
            r matches Err(e) ==> (e is NotArchived <==> has_key(old(store).reminders@, reminder_slug@)),
    {
        let i = match store.reminders.find(reminder_slug) {
            Some(i) => i,
            None => {
                return Err(ScribeError::NotFound { entity: Entity::Reminder, slug: reminder_slug.to_owned() });
            },
        };
        proof {
            crate::store::table::lemma_key_index(store.reminders@, reminder_slug@, i as int);
        }
        if store.reminders.rows()[i].archived_at.is_none() {
            return Err(ScribeError::NotArchived { entity: Entity::Reminder, slug: reminder_slug.to_owned() });
        }
        store.reminders.remove_at(i);
        Ok(())
    }
}

} // verus!
