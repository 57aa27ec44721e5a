//! Time tracking: at most one running timer, start and stop, status with
//! elapsed time, reports over completed entries, and recent entries.

use vstd::prelude::*;
use crate::clock::{now_unix, utc_stamp, utc_stamp_of};
use crate::domain::{ProjectId, TaskId, TimeEntry, TimeEntryId};
use crate::error::{Entity, ScribeError};
use crate::ops::{fresh_slug_for, suffixes_taken, unique_slug};
use crate::store::table::{has_ident, has_key, key_index, lookup, Table};
use crate::store::{Archivable, Record, Store};
use crate::text::{push_str, string_of};

verus! {

/// Parameters for starting a timer.
#[derive(Debug, Clone)]
pub struct StartTimer {
    /// Slug of the owning project, used for the entry's slug.
    pub project_slug: String,
    /// Id of the owning project.
    pub project_id: ProjectId,
    /// Optional linked task.
    pub task_id: Option<TaskId>,
    /// Optional free-text note.
    pub note: Option<String>,
}

/// `a - b`, held to the range of `i64`.
pub open spec fn clamped_diff(a: i64, b: i64) -> i64 {
    if a - b > i64::MAX {
        i64::MAX
    } else if a - b < i64::MIN {
        i64::MIN
    } else {
        (a - b) as i64
    }
}

/// `a - b`, held to the range of `i64`.
pub fn diff_seconds(a: i64, b: i64) -> (r: i64)
    ensures
        r == clamped_diff(a, b),
{
    let d: i128 = (a as i128) - (b as i128);
    if d > i64::MAX as i128 {
        i64::MAX
    } else if d < i64::MIN as i128 {
        i64::MIN
    } else {
        d as i64
    }
}

/// The entry is running: it has no end.
pub open spec fn is_running(e: TimeEntry) -> bool {
    e.ended_at is None
}

/// Some entry is running.
pub open spec fn has_running(rows: Seq<TimeEntry>) -> bool {
    exists|i: int| 0 <= i < rows.len() && is_running(#[trigger] rows[i])
}

/// The first running entry (meaningful when there is one).
pub open spec fn first_running(rows: Seq<TimeEntry>) -> int {
    choose|i: int| 0 <= i < rows.len() && is_running(#[trigger] rows[i]) && forall|j: int|
        0 <= j < i ==> !is_running(#[trigger] rows[j])
}

/// At most one entry is running.
pub open spec fn single_running(rows: Seq<TimeEntry>) -> bool {
    forall|i: int, j: int|
        0 <= i < rows.len() && 0 <= j < rows.len() && is_running(#[trigger] rows[i])
            && is_running(#[trigger] rows[j]) ==> i == j
}

/// The slug a timer started at a time written as `stamp` in project
/// `project` starts from.
pub open spec fn entry_slug_base(project: Seq<char>, stamp: Seq<char>) -> Seq<char> {
    project + "-entry-"@ + stamp
}

/// Whether a completed entry belongs in a report over `[since, until)`.
pub open spec fn in_report(e: TimeEntry, project_id: Option<ProjectId>, since: i64, until: i64) -> bool {
    &&& e.ended_at is Some
    &&& e.archived_at is None
    &&& (match project_id { Some(p) => e.project_id == p, None => true })
    &&& since <= e.started_at < until
}

/// The report filter as a predicate.
pub open spec fn report_filter(project_id: Option<ProjectId>, since: i64, until: i64) -> spec_fn(TimeEntry) -> bool {
    |e: TimeEntry| in_report(e, project_id, since, until)
}

/// A completed entry with its duration.
pub open spec fn with_duration(e: TimeEntry) -> (TimeEntry, i64) {
    (e, clamped_diff(e.ended_at->0, e.started_at))
}

/// An entry that is not archived.
pub open spec fn unarchived() -> spec_fn(TimeEntry) -> bool {
    |e: TimeEntry| e.archived_at is None
}

/// Entries newest first (latest in the table first), archived ones left out.
pub open spec fn newest_first(rows: Seq<TimeEntry>) -> Seq<TimeEntry> {
    rows.reverse().filter(unarchived())
}

/// The first running entry is found at `i` when every earlier one has ended.
proof fn lemma_first_running(rows: Seq<TimeEntry>, i: int)
    requires
        0 <= i < rows.len(),
        is_running(rows[i]),
        forall|j: int| 0 <= j < i ==> !is_running(#[trigger] rows[j]),
    ensures
        has_running(rows),
        first_running(rows) == i,
{
    let k = first_running(rows);
    assert(0 <= k < rows.len() && is_running(rows[k]) && forall|j: int| 0 <= j < k ==> !is_running(#[trigger] rows[j]));
    if k < i {
        assert(!is_running(rows[k]));
    }
    if i < k {
        assert(!is_running(rows[i]));
    }
}

/// The position of the first running entry, if any.
fn find_running(t: &Table<TimeEntry>) -> (r: Option<usize>)
    requires
        t.wf(),
    ensures
        r is None <==> !has_running(t@),
        r matches Some(i) ==> i < t@.len() && i == first_running(t@),
{
    let mut i: usize = 0;
    while i < t.rows().len()
        invariant
            0 <= i <= t@.len(),
            forall|j: int| 0 <= j < i ==> !is_running(#[trigger] t@[j]),
        decreases t@.len() - i,
    {
        if t.rows()[i].ended_at.is_none() {
            proof {
                lemma_first_running(t@, i as int);
            }
            return Some(i);
        }
        i = i + 1;
    }
    None
}

/// Timer operations with the one-running-timer rule.
#[derive(Debug, Clone, Copy)]
pub struct TrackerOps;

impl TrackerOps {
    /// A handle for timer operations.
    pub fn new() -> (r: TrackerOps) {
        TrackerOps
    }

    /// Starts a timer now; see [`TrackerOps::start_timer_at`].
    pub fn start_timer(&self, store: &mut Store, params: StartTimer) -> (r: Result<TimeEntry, ScribeError>)
        requires
            old(store).wf(),
        ensures
            final(store).wf(),
            has_running(old(store).entries@) ==> (r matches Err(e) && e is TimerRunning && e->TimerRunning_slug
                == old(store).entries@[first_running(old(store).entries@)].slug),
            r matches Ok(e) ==> {
                &&& e.ended_at is None
                &&& e.started_at == e.created_at
                &&& e.project_id == params.project_id
                &&& e.task_id == params.task_id
                &&& e.note == params.note
                &&& e.archived_at is None
                &&& e.id == TimeEntryId(old(store).entries.next())
                &&& utc_stamp(e.started_at) is Some
                &&& fresh_slug_for(
                    old(store).entries@,
                    entry_slug_base(params.project_slug@, utc_stamp(e.started_at)->0),
                    e.slug@,
                )
                &&& final(store).entries@ == old(store).entries@.push(e)
                &&& final(store).entries.next() == old(store).entries.next() + 1
                &&& final(store).only_entries(old(store))
            },
            r matches Err(e) ==> *final(store) == *old(store),
    {
        let now = now_unix();
        self.start_timer_at(store, params, now)
    }

    /// Starts a timer at `now` for the project of `params`, unless one is
    /// already running. The entry's slug is
    /// `{project_slug}-entry-{YYYYMMDD}-{HHMMSS}`, made unique.
    pub fn start_timer_at(&self, store: &mut Store, params: StartTimer, now: i64) -> (r: Result<
        TimeEntry,
        ScribeError,
    >)
        requires
            old(store).wf(),
        ensures
            final(store).wf(),
            has_running(old(store).entries@) ==> r == Err::<TimeEntry, ScribeError>(
                ScribeError::TimerRunning {
                    slug: old(store).entries@[first_running(old(store).entries@)].slug,
                    elapsed: clamped_diff(now, old(store).entries@[first_running(old(store).entries@)].started_at),
                },
            ),
            r is Ok ==> !has_running(old(store).entries@) && utc_stamp(now) is Some && has_ident(
                old(store).projects@,
                params.project_id.0,
            ),
            !has_running(old(store).entries@) && utc_stamp(now) is Some && has_ident(
                old(store).projects@,
                params.project_id.0,
            ) && !has_key(
                old(store).entries@,
                entry_slug_base(params.project_slug@, utc_stamp(now)->0),
            ) && old(store).entries.next() < i64::MAX ==> r is Ok,
            r matches Ok(e) ==> {
                &&& e.id == TimeEntryId(old(store).entries.next())
                &&& fresh_slug_for(
                    old(store).entries@,
                    entry_slug_base(params.project_slug@, utc_stamp(now)->0),
                    e.slug@,
                )
                &&& e.project_id == params.project_id
                &&& e.task_id == params.task_id
                &&& e.started_at == now
                &&& e.ended_at is None
                &&& e.note == params.note
                &&& e.archived_at is None
                &&& e.created_at == now
                &&& final(store).entries@ == old(store).entries@.push(e)
                &&& final(store).entries.next() == old(store).entries.next() + 1
                &&& final(store).only_entries(old(store))
            },
            r matches Err(e) ==> *final(store) == *old(store),
            r matches Err(e) ==> (e is TimeOutOfRange ==> utc_stamp(now) is None),
            r matches Err(e) ==> (e is MissingProject ==> !has_ident(old(store).projects@, params.project_id.0)),
            r matches Err(e) ==> (e is Slug ==> has_key(
                old(store).entries@,
                entry_slug_base(params.project_slug@, utc_stamp(now)->0),
            ) && suffixes_taken(old(store).entries@, entry_slug_base(params.project_slug@, utc_stamp(now)->0))),
            r matches Err(e) ==> e is TimerRunning || e is TimeOutOfRange || e is Slug
                || e is MissingProject || e is IdsExhausted,
    {
        if let Some(i) = find_running(&store.entries) {
            let running = store.entries.rows()[i].duplicate();
            return Err(ScribeError::TimerRunning {
                slug: running.slug,
                elapsed: diff_seconds(now, running.started_at),
            });
        }
        let stamp = match utc_stamp_of(now) {
            Some(s) => s,
            None => {
                return Err(ScribeError::TimeOutOfRange);
            },
        };
        let mut base: Vec<char> = Vec::new();
        push_str(&mut base, params.project_slug.as_str());
        push_str(&mut base, "-entry-");
        push_str(&mut base, stamp.as_str());
        let base = string_of(&base);
        let slug = match unique_slug(&store.entries, base.as_str()) {
            Ok(s) => s,
            Err(e) => {
                return Err(e);
            },
        };
        if store.projects.find_id(params.project_id.0).is_none() {
            return Err(ScribeError::MissingProject { id: params.project_id.0 });
        }
        let id = store.entries.next_id();
        if id == i64::MAX {
            return Err(ScribeError::IdsExhausted);
        }
        let e = TimeEntry {
            id: TimeEntryId(id),
            slug,
            project_id: params.project_id,
            task_id: params.task_id,
            started_at: now,
            ended_at: None,
            note: params.note,
            archived_at: None,
            created_at: now,
        };
        store.entries.insert(e.duplicate());
        Ok(e)
    }

    /// Stops the running timer now; see [`TrackerOps::stop_timer_at`].
    pub fn stop_timer(&self, store: &mut Store) -> (r: Result<TimeEntry, ScribeError>)
        requires
            old(store).wf(),
        ensures
            final(store).wf(),
            r is Ok <==> has_running(old(store).entries@),
            r matches Ok(e) ==> {
                let i = first_running(old(store).entries@);
                &&& e == (TimeEntry { ended_at: e.ended_at, ..old(store).entries@[i] })
                &&& e.ended_at is Some
                &&& final(store).entries@ == old(store).entries@.update(i, e)
                &&& final(store).only_entries(old(store))
            },
            r matches Err(e) ==> *final(store) == *old(store) && e is NoTimer,
    {
        let now = now_unix();
        self.stop_timer_at(store, now)
    }

    /// Stops the running timer, ending it at `now`. Fails when no timer is
    /// running.
    pub fn stop_timer_at(&self, store: &mut Store, now: i64) -> (r: Result<TimeEntry, ScribeError>)
        requires
            old(store).wf(),
        ensures
            final(store).wf(),
            r is Ok <==> has_running(old(store).entries@),
            r matches Ok(e) ==> {
                let i = first_running(old(store).entries@);
                &&& e == (TimeEntry { ended_at: Some(now), ..old(store).entries@[i] })
                &&& final(store).entries@ == old(store).entries@.update(i, e)
                &&& final(store).only_entries(old(store))
            },
            r matches Err(e) ==> *final(store) == *old(store) && e is NoTimer,
    {
        let i = match find_running(&store.entries) {
            Some(i) => i,
            None => {
                return Err(ScribeError::NoTimer);
            },
        };
        let cur = store.entries.rows()[i].duplicate();
        let e = TimeEntry { ended_at: Some(now), ..cur };
        proof {
            assert(e.key() == store.entries@[i as int].key());
            assert forall|j: int| 0 <= j < store.entries@.len() && j != i implies #[trigger] store.entries@[j].key() != e.key() by {
                assert(store.entries@[j].key() != store.entries@[i as int].key());
            }
        }
        store.entries.replace(i, e.duplicate());
        Ok(e)
    }

    /// The running timer and how long it has run, now; see
    /// [`TrackerOps::timer_status_at`].
    pub fn timer_status(&self, store: &Store) -> (r: Option<(TimeEntry, i64)>)
        requires
            store.wf(),
        ensures
            r is Some <==> has_running(store.entries@),
            r matches Some(p) ==> p.0 == store.entries@[first_running(store.entries@)],
    {
        let now = now_unix();
        self.timer_status_at(store, now)
    }

    /// The running timer and the seconds it has run at `now`, or `None`
    /// when no timer is running.
    pub fn timer_status_at(&self, store: &Store, now: i64) -> (r: Option<(TimeEntry, i64)>)
        requires
            store.wf(),
        ensures
            r is Some <==> has_running(store.entries@),
            r matches Some(p) ==> {
                let e = store.entries@[first_running(store.entries@)];
                p.0 == e && p.1 == clamped_diff(now, e.started_at)
            },
    {
        match find_running(&store.entries) {
            Some(i) => {
                let e = store.entries.rows()[i].duplicate();
                let d = diff_seconds(now, e.started_at);
                Some((e, d))
            },
            None => None,
        }
    }

    /// Completed, unarchived entries of the given project (any when `None`)
    /// started in `[since, until)`, each with its duration in seconds.
    pub fn report(&self, store: &Store, project_id: Option<ProjectId>, since: i64, until: i64) -> (r: Vec<
        (TimeEntry, i64),
    >)
        requires
            store.wf(),
        ensures
            r@ == store.entries@.filter(report_filter(project_id, since, until)).map_values(
                |e: TimeEntry| with_duration(e),
            ),
    {
        let keep = |e: &TimeEntry| -> (b: bool)
            ensures
                b == in_report(*e, project_id, since, until),
            {
                let p_ok = match project_id {
                    Some(p) => e.project_id == p,
                    None => true,
                };
                e.ended_at.is_some() && e.archived_at.is_none() && p_ok && since <= e.started_at
                    && e.started_at < until
            };
        let rows = store.entries.select(keep, Ghost(report_filter(project_id, since, until)));
        let ghost chosen = rows@;
        let mut out: Vec<(TimeEntry, i64)> = Vec::new();
        let mut i: usize = 0;
        while i < rows.len()
            invariant
                0 <= i <= rows@.len(),
                rows@ == chosen,
                chosen == store.entries@.filter(report_filter(project_id, since, until)),
                forall|j: int| 0 <= j < chosen.len() ==> (#[trigger] chosen[j]).ended_at is Some,
                out@ == chosen.take(i as int).map_values(|e: TimeEntry| with_duration(e)),
            decreases rows@.len() - i,
        {
            let e = rows[i].duplicate();
            let end = match e.ended_at {
                Some(t) => t,
                None => 0,
            };
            let d = diff_seconds(end, e.started_at);
            out.push((e, d));
            proof {
                assert(chosen.take(i + 1) =~= chosen.take(i as int).push(chosen[i as int]));
                assert(chosen.take(i + 1).map_values(|e: TimeEntry| with_duration(e)) =~= chosen.take(
                    i as int,
                ).map_values(|e: TimeEntry| with_duration(e)).push(with_duration(chosen[i as int])));
            }
            i = i + 1;
        }
        proof {
            assert(chosen.take(chosen.len() as int) =~= chosen);
        }
        out
    }

    /// Resolves a project slug to its slug and id; the project must exist
    /// and not be archived.
    pub fn resolve_project(&self, store: &Store, project_slug: &str) -> (r: Result<(String, ProjectId), ScribeError>)
        requires
            store.wf(),
        ensures
            r is Ok <==> has_key(store.projects@, project_slug@) && lookup(
                store.projects@,
                project_slug@,
            )->0.archived_at is None,
            r matches Ok(p) ==> p.0 == lookup(store.projects@, project_slug@)->0.slug && p.1 == lookup(
                store.projects@,
                project_slug@,
            )->0.id,
            r matches Err(e) ==> (e is NotFound <==> !has_key(store.projects@, project_slug@)),
            r matches Err(e) ==> e is NotFound || e is ProjectArchived,
            r matches Err(e) ==> (e is NotFound ==> e->NotFound_entity == Entity::Project
                && e->NotFound_slug@ == project_slug@),
    {
        let project = match store.projects.get(project_slug) {
            Some(p) => p,
            None => {
                return Err(ScribeError::NotFound { entity: Entity::Project, slug: project_slug.to_owned() });
            },
        };
        if project.archived_at.is_some() {
            return Err(ScribeError::ProjectArchived { slug: project_slug.to_owned(), adding: None });
        }
        Ok((project.slug, project.id))
    }

    /// At most `limit` unarchived entries, newest first.
    pub fn list_recent(&self, store: &Store, limit: usize) -> (r: Vec<TimeEntry>)
        requires
            store.wf(),
        ensures
            r@ == newest_first(store.entries@).take(
                if limit < newest_first(store.entries@).len() { limit as int } else {
                    newest_first(store.entries@).len() as int
                },
            ),
    {
        let ghost rev = store.entries@.reverse();
        let n = store.entries.rows().len();
        let mut out: Vec<TimeEntry> = Vec::new();
        let mut k: usize = 0;
        while k < n && out.len() < limit
            invariant
                n == store.entries@.len(),
                rev == store.entries@.reverse(),
                0 <= k <= n,
                out@ == rev.take(k as int).filter(unarchived()),
                out@.len() <= limit,
            decreases n - k,
        {
            proof {
                crate::store::table::lemma_filter_step(rev, unarchived(), k as int);
            }
            let e = &store.entries.rows()[n - 1 - k];
            if e.archived_at.is_none() {
                out.push(e.duplicate());
            }
            k = k + 1;
        }
        proof {
            lemma_filter_prefix(rev, unarchived(), k as int);
            let all = rev.filter(unarchived());
            if k == n {
                assert(rev.take(k as int) =~= rev);
            }
            assert(out@ =~= all.take(out@.len() as int));
        }
        out
    }

    /// Sets the note of the time entry with slug `entry_slug`.
    pub fn update_note(&self, store: &mut Store, entry_slug: &str, note: Option<String>) -> (r: Result<
        TimeEntry,
        ScribeError,
    >)
        requires
            old(store).wf(),
        ensures
            final(store).wf(),
            r is Ok <==> has_key(old(store).entries@, entry_slug@),
            r matches Ok(e) ==> {
                let i = key_index(old(store).entries@, entry_slug@);
                &&& e == (TimeEntry { note: note, ..old(store).entries@[i] })
                &&& final(store).entries@ == old(store).entries@.update(i, e)
                &&& final(store).only_entries(old(store))
            },
            r matches Err(e) ==> *final(store) == *old(store) && e is NotFound,
    {
        let i = match store.entries.find(entry_slug) {
            Some(i) => i,
            None => {
                return Err(ScribeError::NotFound { entity: Entity::TimeEntry, slug: entry_slug.to_owned() });
            },
        };
        let cur = store.entries.rows()[i].duplicate();
        let e = TimeEntry { note, ..cur };
        proof {
            assert(e.key() == store.entries@[i as int].key());
            assert forall|j: int| 0 <= j < store.entries@.len() && j != i implies #[trigger] store.entries@[j].key() != e.key() by {
                assert(store.entries@[j].key() != store.entries@[i as int].key());
            }
        }
        store.entries.replace(i, e.duplicate());
        Ok(e)
    }

    /// Archives the time entry with slug `entry_slug`.
    pub fn archive_entry(&self, store: &mut Store, entry_slug: &str) -> (r: Result<TimeEntry, ScribeError>)
        requires
            old(store).wf(),
        ensures
            final(store).wf(),
            r is Ok <==> has_key(old(store).entries@, entry_slug@),
            r matches Ok(e) ==> {
                let i = key_index(old(store).entries@, entry_slug@);
                &&& e.archived_at is Some
                &&& e == old(store).entries@[i].archived_as(e.archived_at, 0)
                &&& final(store).entries@ == old(store).entries@.update(i, e)
                &&& final(store).only_entries(old(store))
            },
            r matches Err(e) ==> *final(store) == *old(store) && e is NotFound,
    {
        let i = match store.entries.find(entry_slug) {
            Some(i) => i,
            None => {
                return Err(ScribeError::NotFound { entity: Entity::TimeEntry, slug: entry_slug.to_owned() });
            },
        };
        let now = now_unix();
        store.entries.set_archived_at(i, Some(now), 0);
        Ok(store.entries.rows()[i].duplicate())
    }
}

/// The filtered prefix of `s` is a prefix of the filtered whole.
pub proof fn lemma_filter_prefix<T>(s: Seq<T>, p: spec_fn(T) -> bool, k: int)
    requires
        0 <= k <= s.len(),
    ensures
        s.take(k).filter(p) == s.filter(p).take(s.take(k).filter(p).len() as int),
        s.take(k).filter(p).len() <= s.filter(p).len(),
{
    assert(s == s.take(k) + s.skip(k));
    Seq::filter_distributes_over_add(s.take(k), s.skip(k), p);
    let a = s.take(k).filter(p);
    let b = s.skip(k).filter(p);
    assert((a + b).take(a.len() as int) =~= a);
}

} // verus!
