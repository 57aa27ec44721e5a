//! `scribe track …`: start and stop the timer, show its status, and report
//! tracked time.

use vstd::prelude::*;
use crate::cli::project::OutputFormat;
use crate::domain::{copy_opt_string, ProjectId, TaskId, TimeEntry};
use crate::error::{Entity, ScribeError};
use crate::ops::projects::ProjectOps;
use crate::ops::tasks::TaskOps;
use crate::ops::tracker::{
    clamped_diff, diff_seconds, first_running, has_running, report_filter, with_duration, StartTimer,
    TrackerOps,
};
use crate::report::{compute_time_window, window_spec, ClockReading};
use crate::store::table::{has_key, lookup};
use crate::store::Store;

verus! {

/// `scribe track`.
#[derive(Debug)]
pub struct TrackCommand {
    /// The subcommand.
    pub subcommand: TrackSubcommand,
}

/// The `scribe track` subcommands.
#[derive(Debug)]
pub enum TrackSubcommand {
    /// Start a timer.
    Start(TrackStart),
    /// Stop the running timer.
    Stop(TrackStop),
    /// Show the running timer.
    Status(TrackStatus),
    /// Report tracked time.
    Report(TrackReport),
}

/// `scribe track start`.
#[derive(Debug)]
pub struct TrackStart {
    /// Project slug; `quick-capture` when absent.
    pub project: Option<String>,
    /// Optional task slug.
    pub task: Option<String>,
    /// Optional note.
    pub note: Option<String>,
    /// Output format.
    pub output: OutputFormat,
}

/// `scribe track stop`.
#[derive(Debug)]
pub struct TrackStop {
    /// Output format.
    pub output: OutputFormat,
}

/// `scribe track status`.
#[derive(Debug)]
pub struct TrackStatus {
    /// Output format.
    pub output: OutputFormat,
}

/// `scribe track report`.
#[derive(Debug)]
pub struct TrackReport {
    /// Only entries started today (UTC).
    pub today: bool,
    /// Only entries started this week (UTC, from Monday).
    pub week: bool,
    /// Only entries of this project.
    pub project: Option<String>,
    /// Output format.
    pub output: OutputFormat,
}

/// What a track command produced.
#[derive(Debug)]
pub enum TrackOutcome {
    /// The entry of the timer just started.
    Started(TimeEntry),
    /// The entry of the timer just stopped, with its length in seconds.
    Stopped(TimeEntry, i64),
    /// The running timer with its elapsed seconds, if any.
    Status(Option<(TimeEntry, i64)>),
    /// Completed entries with their durations in seconds.
    Report(Vec<(TimeEntry, i64)>),
}

/// The project slug a timer starts in.
pub open spec fn start_project(a: TrackStart) -> Seq<char> {
    match a.project {
        Some(p) => p@,
        None => "quick-capture"@,
    }
}

/// The project a report is limited to, if any.
pub open spec fn report_project(s: &Store, project: Option<String>) -> Option<ProjectId> {
    match project {
        Some(p) => Some(lookup(s.projects@, p@)->0.id),
        None => None::<ProjectId>,
    }
}

/// What running `cmd` on `old`, leaving `new`, may produce.
pub open spec fn track_run_done(
    cmd: TrackCommand,
    clock: ClockReading,
    old: &Store,
    new: &Store,
    r: Result<TrackOutcome, ScribeError>,
) -> bool {
    &&& new.wf()
    &&& (r is Err ==> *new == *old)
    &&& match cmd.subcommand {
        TrackSubcommand::Start(a) => {
            &&& (!has_key(old.projects@, start_project(a)) ==> (r matches Err(e) && e is NotFound))
            &&& (r is Ok ==> has_key(old.projects@, start_project(a)) && lookup(old.projects@, start_project(a))->0.archived_at is None
                && !has_running(old.entries@))
            &&& (r is Ok ==> (a.task matches Some(t) ==> has_key(old.tasks@, t@)))
            &&& ((has_key(old.projects@, start_project(a)) && lookup(old.projects@, start_project(a))->0.archived_at
                is None && a.task is Some && !has_key(old.tasks@, a.task->0@)) ==> r == Err::<TrackOutcome, ScribeError>(
                ScribeError::NotFound { entity: Entity::Task, slug: a.task->0 },
            ))
            &&& (r matches Ok(o) ==> o matches TrackOutcome::Started(e) && {
                &&& new.entries@ == old.entries@.push(e)
                &&& e.project_id == lookup(old.projects@, start_project(a))->0.id
                &&& e.ended_at is None
                &&& e.note == a.note
                &&& (match a.task {
                    Some(t) => e.task_id == Some(lookup(old.tasks@, t@)->0.id),
                    None => e.task_id is None,
                })
                &&& new.only_entries(old)
            })
        },
        TrackSubcommand::Stop(_) => {
            &&& (r is Ok <==> has_running(old.entries@))
            &&& (r matches Ok(o) ==> o matches TrackOutcome::Stopped(e, d) && e.ended_at is Some
                && e.slug == old.entries@[first_running(old.entries@)].slug
                && d == clamped_diff(e.ended_at->0, e.started_at))
        },
        TrackSubcommand::Status(_) => {
            &&& *new == *old
            &&& (r matches Ok(o) && o matches TrackOutcome::Status(s) && (s is Some <==> has_running(old.entries@))
                && (s matches Some(p) ==> p.0 == old.entries@[first_running(old.entries@)]))
        },
        TrackSubcommand::Report(a) => {
            &&& *new == *old
            &&& (match a.project { Some(p) => !has_key(old.projects@, p@), None => false } ==> (r matches Err(e)
                && e is NotFound))
            &&& (match a.project { Some(p) => has_key(old.projects@, p@), None => true } ==> match window_spec(
                a.today,
                a.week,
                clock.now,
                clock.today_start,
                clock.week_start,
            ) {
                Ok(w) => r matches Ok(o) && o matches TrackOutcome::Report(v) && v@ == old.entries@.filter(
                    report_filter(report_project(old, a.project), w.0, w.1),
                ).map_values(|e: TimeEntry| with_duration(e)),
                Err(e) => r == Err::<TrackOutcome, ScribeError>(e),
            })
        },
    }
}

/// Runs a `scribe track` command against the store.
pub fn run(
    cmd: &TrackCommand,
    ops: &TrackerOps,
    project_ops: &ProjectOps,
    task_ops: &TaskOps,
    clock: &ClockReading,
    store: &mut Store,
) -> (r: Result<TrackOutcome, ScribeError>)
    requires
        old(store).wf(),
    ensures
        track_run_done(*cmd, *clock, old(store), final(store), r),
{
    match &cmd.subcommand {
        TrackSubcommand::Start(a) => {
            let project_slug = match &a.project {
                Some(p) => p.clone(),
                None => "quick-capture".to_owned(),
            };
            let (slug, project_id) = match ops.resolve_project(store, project_slug.as_str()) {
                Ok(p) => p,
                Err(e) => {
                    return Err(e);
                },
            };
            let task_id: Option<TaskId> = match &a.task {
                Some(t) => match task_ops.get_task(store, t.as_str()) {
                    Some(task) => Some(task.id),
                    None => {
                        return Err(ScribeError::NotFound { entity: Entity::Task, slug: t.clone() });
                    },
                },
                None => None,
            };
            let params = StartTimer { project_slug: slug, project_id, task_id, note: copy_opt_string(&a.note) };
            match ops.start_timer(store, params) {
                Ok(e) => Ok(TrackOutcome::Started(e)),
                Err(e) => Err(e),
            }
        },
        TrackSubcommand::Stop(_) => match ops.stop_timer(store) {
            Ok(e) => {
                let end = match e.ended_at {
                    Some(t) => t,
                    None => e.started_at,
                };
                let d = diff_seconds(end, e.started_at);
                Ok(TrackOutcome::Stopped(e, d))
            },
            Err(e) => Err(e),
        },
        TrackSubcommand::Status(_) => Ok(TrackOutcome::Status(ops.timer_status(store))),
        TrackSubcommand::Report(a) => {
            let project_id = match &a.project {
                Some(slug) => match project_ops.get_project(store, slug.as_str()) {
                    Some(p) => Some(p.id),
                    None => {
                        return Err(ScribeError::NotFound { entity: Entity::Project, slug: slug.clone() });
                    },
                },
                None => None,
            };
            let (since, until) = match compute_time_window(
                a.today,
                a.week,
                clock.now,
                clock.today_start,
                clock.week_start,
            ) {
                Ok(w) => w,
                Err(e) => {
                    return Err(e);
                },
            };
            let v = ops.report(store, project_id, since, until);
            proof {
                assert(report_project(store, a.project) == project_id);
            }
            Ok(TrackOutcome::Report(v))
        },
    }
}

} // verus!
