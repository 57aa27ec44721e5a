//! Reporting across every table: the summary, the project and task reports,
//! durations written as hours and minutes, and the windows that "today" and
//! "this week" cover.

use vstd::prelude::*;
use crate::clock::{utc_format, utc_format_of};
use crate::domain::project::project_status_name;
use crate::domain::task::{task_priority_name, task_status_name};
use crate::datetime::{add_days, civil_add_days, field_text, push_field, push_year, year_text};
use crate::domain::{
    CaptureItem, CivilDate, Project, ProjectId, Reminder, Task, TaskId, TaskStatus, TimeEntry, Todo,
};
use crate::error::{tdiv, trem, Entity, ScribeError};
use crate::ops::tracker::{clamped_diff, diff_seconds, with_duration, TrackerOps};
use crate::store::table::{has_ident, lookup};
use crate::store::Store;
use crate::text::{decimal, push_decimal, push_signed_decimal, push_wide_decimal, push_str, signed_decimal, str_eq, string_of};

verus! {

/// Reporting across every table.
#[derive(Debug, Clone, Copy)]
pub struct ReportingOps;

/// Counts across every table.
#[derive(Debug, Clone, Copy, PartialEq, Eq)]
pub struct SummaryReport {
    /// Projects that are not archived.
    pub active_projects: usize,
    /// Unarchived tasks that are neither done nor cancelled.
    pub pending_tasks: usize,
    /// Unarchived todos that are not done.
    pub open_todos: usize,
    /// Capture items not processed yet.
    pub items_in_inbox: usize,
    /// Unarchived reminders that have not fired.
    pub active_reminders: usize,
    /// Seconds tracked in the window (see [`total_seconds`]).
    pub total_time_tracked: i64,
    /// Pending tasks due before today.
    pub overdue_tasks: usize,
}

/// A project with its pending tasks, open todos and time in a window.
#[derive(Debug)]
pub struct ProjectReport {
    /// The project.
    pub project: Project,
    /// Its pending tasks, in table order.
    pub pending_tasks: Vec<Task>,
    /// Its open todos, in table order.
    pub open_todos: Vec<Todo>,
    /// Its completed, unarchived time entries started in the window, each
    /// with its duration.
    pub time_entries: Vec<(TimeEntry, i64)>,
    /// The sum of those durations.
    pub total_time: i64,
    /// How many of its unarchived tasks are done.
    pub done_tasks: usize,
    /// How many unarchived tasks it has.
    pub all_tasks: usize,
}

/// A task with the time tracked against it.
#[derive(Debug)]
pub struct TaskReport {
    /// The task.
    pub task: Task,
    /// The slug of its project.
    pub project_slug: String,
    /// Its completed, unarchived time entries, each with its duration.
    pub time_entries: Vec<(TimeEntry, i64)>,
    /// The sum of those durations.
    pub total_time: i64,
}

/// The task is unarchived and neither done nor cancelled.
pub open spec fn is_pending(t: Task) -> bool {
    t.archived_at is None && t.status != TaskStatus::Done && t.status != TaskStatus::Cancelled
}

/// Pending tasks, of project `pid` when given.
pub open spec fn pending_of(pid: Option<ProjectId>) -> spec_fn(Task) -> bool {
    |t: Task| is_pending(t) && match pid { Some(p) => t.project_id == p, None => true }
}

/// Date `a` comes before date `b`.
pub open spec fn date_before(a: CivilDate, b: CivilDate) -> bool {
    a.year < b.year || (a.year == b.year && (a.month < b.month || (a.month == b.month && a.day < b.day)))
}

/// Pending tasks due before `today`.
pub open spec fn overdue_on(today: CivilDate) -> spec_fn(Task) -> bool {
    |t: Task| is_pending(t) && t.due_date is Some && date_before(t.due_date->0, today)
}

/// Unarchived tasks of project `pid`.
pub open spec fn tasks_of(pid: ProjectId) -> spec_fn(Task) -> bool {
    |t: Task| t.archived_at is None && t.project_id == pid
}

/// Unarchived tasks of project `pid` that are done.
pub open spec fn done_tasks_of(pid: ProjectId) -> spec_fn(Task) -> bool {
    |t: Task| t.archived_at is None && t.project_id == pid && t.status == TaskStatus::Done
}

/// Unarchived todos that are not done, of project `pid` when given.
pub open spec fn open_todo_of(pid: Option<ProjectId>) -> spec_fn(Todo) -> bool {
    |t: Todo| t.archived_at is None && !t.done && match pid { Some(p) => t.project_id == p, None => true }
}

/// Projects that are not archived.
pub open spec fn active_project() -> spec_fn(Project) -> bool {
    |p: Project| p.archived_at is None
}

/// Capture items not processed yet.
pub open spec fn in_inbox() -> spec_fn(CaptureItem) -> bool {
    |c: CaptureItem| !c.processed
}

/// Unarchived reminders that have not fired.
pub open spec fn active_reminder() -> spec_fn(Reminder) -> bool {
    |r: Reminder| r.archived_at is None && !r.fired
}

/// Completed, unarchived entries tracked against task `tid`.
pub open spec fn entry_of_task(tid: TaskId) -> spec_fn(TimeEntry) -> bool {
    |e: TimeEntry| e.ended_at is Some && e.archived_at is None && e.task_id == Some(tid)
}

/// `a + b`, held to the range of `i64`.
pub open spec fn saturating(a: int, b: int) -> int {
    if a + b > i64::MAX {
        i64::MAX as int
    } else if a + b < i64::MIN {
        i64::MIN as int
    } else {
        a + b
    }
}

/// The sum of the durations of `rows`, added in order and held to the range
/// of `i64` at each step.
pub open spec fn total_seconds(rows: Seq<(TimeEntry, i64)>) -> int
    decreases rows.len(),
{
    if rows.len() == 0 {
        0
    } else {
        saturating(total_seconds(rows.drop_last()), rows.last().1 as int)
    }
}

/// The sum of the durations of `rows`, as [`total_seconds`] states.
pub fn total_time(rows: &Vec<(TimeEntry, i64)>) -> (r: i64)
    ensures
        r == total_seconds(rows@),
{
    let mut acc: i64 = 0;
    let mut i: usize = 0;
    while i < rows.len()
        invariant
            0 <= i <= rows@.len(),
            acc == total_seconds(rows@.take(i as int)),
        decreases rows@.len() - i,
    {
        assert(rows@.take(i + 1).drop_last() =~= rows@.take(i as int));
        let d = rows[i].1;
        acc = if d > 0 && acc > i64::MAX - d {
            i64::MAX
        } else if d < 0 && acc < i64::MIN - d {
            i64::MIN
        } else {
            acc + d
        };
        i = i + 1;
    }
    assert(rows@.take(rows@.len() as int) =~= rows@);
    acc
}

impl ReportingOps {
    /// A handle for reporting.
    pub fn new() -> (r: ReportingOps) {
        ReportingOps
    }

    /// Counts across every table, with the time tracked in the window from
    /// `since` to `until` and the tasks overdue on `today`.
    pub fn summary_report(&self, store: &Store, since: i64, until: i64, today: CivilDate) -> (r: SummaryReport)
        requires
            store.wf(),
        ensures
            r.active_projects == store.projects@.filter(active_project()).len(),
            r.pending_tasks == store.tasks@.filter(pending_of(None)).len(),
            r.open_todos == store.todos@.filter(open_todo_of(None)).len(),
            r.items_in_inbox == store.captures@.filter(in_inbox()).len(),
            r.active_reminders == store.reminders@.filter(active_reminder()).len(),
            r.total_time_tracked == total_seconds(store.entries@.filter(
                crate::ops::tracker::report_filter(None, since, until),
            ).map_values(|e: TimeEntry| with_duration(e))),
            r.overdue_tasks == store.tasks@.filter(overdue_on(today)).len(),
    {
        let keep_project = |p: &Project| -> (b: bool)
            ensures
                b == active_project()(*p),
            { p.archived_at.is_none() };
        let projects = store.projects.select(keep_project, Ghost(active_project()));
        let keep_pending = |t: &Task| -> (b: bool)
            ensures
                b == pending_of(None)(*t),
            { t.archived_at.is_none() && t.status != TaskStatus::Done && t.status != TaskStatus::Cancelled };
        let pending = store.tasks.select(keep_pending, Ghost(pending_of(None)));
        let keep_todo = |t: &Todo| -> (b: bool)
            ensures
                b == open_todo_of(None)(*t),
            { t.archived_at.is_none() && !t.done };
        let todos = store.todos.select(keep_todo, Ghost(open_todo_of(None)));
        let keep_capture = |c: &CaptureItem| -> (b: bool)
            ensures
                b == in_inbox()(*c),
            { !c.processed };
        let inbox = store.captures.select(keep_capture, Ghost(in_inbox()));
        let keep_reminder = |r: &Reminder| -> (b: bool)
            ensures
                b == active_reminder()(*r),
            { r.archived_at.is_none() && !r.fired };
        let reminders = store.reminders.select(keep_reminder, Ghost(active_reminder()));
        let keep_overdue = |t: &Task| -> (b: bool)
            ensures
                b == overdue_on(today)(*t),
            {
                let pend = t.archived_at.is_none() && t.status != TaskStatus::Done && t.status != TaskStatus::Cancelled;
                match t.due_date {
                    Some(d) => pend && (d.year < today.year || (d.year == today.year && (d.month < today.month || (
                    d.month == today.month && d.day < today.day)))),
                    None => false,
                }
            };
        let overdue = store.tasks.select(keep_overdue, Ghost(overdue_on(today)));
        let entries = TrackerOps::new().report(store, None, since, until);
        SummaryReport {
            active_projects: projects.len(),
            pending_tasks: pending.len(),
            open_todos: todos.len(),
            items_in_inbox: inbox.len(),
            active_reminders: reminders.len(),
            total_time_tracked: total_time(&entries),
            overdue_tasks: overdue.len(),
        }
    }

    /// The report of project `slug` for the window from `since` to
    /// `until`; `NotFound` when there is no such project.
    pub fn project_report(&self, store: &Store, slug: &str, since: i64, until: i64) -> (r: Result<
        ProjectReport,
        ScribeError,
    >)
        requires
            store.wf(),
        ensures
            r is Err <==> lookup(store.projects@, slug@) is None,
            r matches Err(e) ==> e is NotFound && e->NotFound_entity == Entity::Project && e->NotFound_slug@ == slug@,
            r matches Ok(p) ==> {
                let pid = p.project.id;
                &&& lookup(store.projects@, slug@) == Some(p.project)
                &&& p.pending_tasks@ == store.tasks@.filter(pending_of(Some(pid)))
                &&& p.open_todos@ == store.todos@.filter(open_todo_of(Some(pid)))
                &&& p.time_entries@ == store.entries@.filter(
                    crate::ops::tracker::report_filter(Some(pid), since, until),
                ).map_values(|e: TimeEntry| with_duration(e))
                &&& p.total_time == total_seconds(p.time_entries@)
                &&& p.done_tasks == store.tasks@.filter(done_tasks_of(pid)).len()
                &&& p.all_tasks == store.tasks@.filter(tasks_of(pid)).len()
            },
    {
        let project = match store.projects.get(slug) {
            Some(p) => p,
            None => {
                return Err(ScribeError::NotFound { entity: Entity::Project, slug: slug.to_owned() });
            },
        };
        let pid = project.id;
        let keep_pending = |t: &Task| -> (b: bool)
            ensures
                b == pending_of(Some(pid))(*t),
            {
                t.archived_at.is_none() && t.status != TaskStatus::Done && t.status != TaskStatus::Cancelled
                    && t.project_id == pid
            };
        let pending = store.tasks.select(keep_pending, Ghost(pending_of(Some(pid))));
        let keep_todo = |t: &Todo| -> (b: bool)
            ensures
                b == open_todo_of(Some(pid))(*t),
            { t.archived_at.is_none() && !t.done && t.project_id == pid };
        let todos = store.todos.select(keep_todo, Ghost(open_todo_of(Some(pid))));
        let keep_done = |t: &Task| -> (b: bool)
            ensures
                b == done_tasks_of(pid)(*t),
            { t.archived_at.is_none() && t.project_id == pid && t.status == TaskStatus::Done };
        let done = store.tasks.select(keep_done, Ghost(done_tasks_of(pid)));
        let keep_all = |t: &Task| -> (b: bool)
            ensures
                b == tasks_of(pid)(*t),
            { t.archived_at.is_none() && t.project_id == pid };
        let all = store.tasks.select(keep_all, Ghost(tasks_of(pid)));
        let entries = TrackerOps::new().report(store, Some(pid), since, until);
        let total = total_time(&entries);
        Ok(ProjectReport {
            project,
            pending_tasks: pending,
            open_todos: todos,
            time_entries: entries,
            total_time: total,
            done_tasks: done.len(),
            all_tasks: all.len(),
        })
    }

    /// The report of task `slug`; `NotFound` when there is no such task.
    pub fn task_report(&self, store: &Store, slug: &str) -> (r: Result<TaskReport, ScribeError>)
        requires
            store.wf(),
        ensures
            r is Err <==> lookup(store.tasks@, slug@) is None,
            r matches Err(e) ==> e is NotFound && e->NotFound_entity == Entity::Task && e->NotFound_slug@ == slug@,
            r matches Ok(t) ==> {
                &&& lookup(store.tasks@, slug@) == Some(t.task)
                &&& t.time_entries@ == store.entries@.filter(entry_of_task(t.task.id)).map_values(
                    |e: TimeEntry| with_duration(e),
                )
                &&& t.total_time == total_seconds(t.time_entries@)
                &&& has_ident(store.projects@, t.task.project_id.0) ==> exists|k: int|
                    0 <= k < store.projects@.len() && store.projects@[k].id == t.task.project_id
                        && t.project_slug@ == #[trigger] store.projects@[k].slug@
            },
    {
        let task = match store.tasks.get(slug) {
            Some(t) => t,
            None => {
                return Err(ScribeError::NotFound { entity: Entity::Task, slug: slug.to_owned() });
            },
        };
        let tid = task.id;
        let keep_entry = |e: &TimeEntry| -> (b: bool)
            ensures
                b == entry_of_task(tid)(*e),
            {
                e.ended_at.is_some() && e.archived_at.is_none() && match e.task_id {
                    Some(x) => x.0 == tid.0,
                    None => false,
                }
            };
        let rows = store.entries.select(keep_entry, Ghost(entry_of_task(tid)));
        let mut entries: Vec<(TimeEntry, i64)> = Vec::new();
        let mut i: usize = 0;
        while i < rows.len()
            invariant
                0 <= i <= rows@.len(),
                forall|k: int| 0 <= k < rows@.len() ==> (#[trigger] rows@[k]).ended_at is Some,
                entries@ == rows@.take(i as int).map_values(|e: TimeEntry| with_duration(e)),
            decreases rows@.len() - i,
        {
            let e = rows[i].duplicate();
            let end = match e.ended_at {
                Some(t) => t,
                None => e.started_at,
            };
            let d = diff_seconds(end, e.started_at);
            entries.push((e, d));
            assert(rows@.take(i + 1).map_values(|e: TimeEntry| with_duration(e)) =~= rows@.take(i as int).map_values(
                |e: TimeEntry| with_duration(e),
            ).push(with_duration(rows@[i as int])));
            i = i + 1;
        }
        assert(rows@.take(rows@.len() as int) =~= rows@);
        let total = total_time(&entries);
        let project_slug = project_slug_of(store, task.project_id);
        Ok(TaskReport { task, project_slug, time_entries: entries, total_time: total })
    }
}

/// The slug of the project with id `pid`, or an empty string when there is
/// none.
fn project_slug_of(store: &Store, pid: ProjectId) -> (r: String)
    requires
        store.wf(),
    ensures
        has_ident(store.projects@, pid.0) ==> exists|k: int|
            0 <= k < store.projects@.len() && store.projects@[k].id == pid && r@ == #[trigger] store.projects@[k].slug@,
{
    match store.projects.find_id(pid.0) {
        Some(i) => {
            let p = store.projects.rows()[i].duplicate();
            assert(p.slug@ == store.projects@[i as int].slug@);
            p.slug
        },
        None => String::new(),
    }
}

/// A duration of `seconds` written as `Xh Ym`, or `Ym` when it is under an
/// hour; whole minutes and hours, cut toward zero.
pub open spec fn duration_text(seconds: i64) -> Seq<char> {
    let minutes = tdiv(seconds as int, 60);
    let hours = tdiv(minutes, 60);
    let rest = trem(minutes, 60);
    if hours > 0 {
        signed_decimal(hours) + "h "@ + signed_decimal(rest) + "m"@
    } else {
        signed_decimal(rest) + "m"@
    }
}

/// Writes a duration of `seconds` as `Xh Ym`, or `Ym` under an hour.
pub fn format_duration(seconds: i64) -> (r: String)
    ensures
        r@ == duration_text(seconds),
{
    let minutes: i64 = if seconds >= 0 { seconds / 60 } else if seconds == i64::MIN {
        -153722867280912930i64
    } else {
        -((-seconds) / 60)
    };
    assert(minutes == tdiv(seconds as int, 60));
    let hours: i64 = if minutes >= 0 { minutes / 60 } else { -((-minutes) / 60) };
    let rest: i64 = if minutes >= 0 { minutes % 60 } else { -((-minutes) % 60) };
    let mut out: Vec<char> = Vec::new();
    if hours > 0 {
        push_signed_decimal(&mut out, hours);
        push_str(&mut out, "h ");
        push_signed_decimal(&mut out, rest);
        push_str(&mut out, "m");
    } else {
        push_signed_decimal(&mut out, rest);
        push_str(&mut out, "m");
    }
    assert(out@ =~= duration_text(seconds));
    string_of(&out)
}

/// Seconds in a day.
pub const SECS_PER_DAY: i64 = 86400;

/// The start of the UTC day holding `t`.
pub open spec fn day_start(t: int) -> int {
    t - t % 86400
}

/// The weekday of the UTC day holding `t`, counted from Monday as 0 (the
/// epoch fell on a Thursday).
pub open spec fn weekday_of(t: int) -> int {
    (t / 86400 + 3) % 7
}

/// The report window for `period` at `now`: from the start of the UTC day
/// for `today`, from the start of the UTC Monday for `week`, from the epoch
/// otherwise; always up to one second past now.
pub open spec fn report_window_spec(period: Option<Seq<char>>, now: int) -> (int, int) {
    let since = match period {
        Some(p) => if p == "today"@ {
            day_start(now)
        } else if p == "week"@ {
            day_start(now - weekday_of(now) * 86400)
        } else {
            0
        },
        None => 0,
    };
    (since, now + 1)
}

/// The bound on instants the window arithmetic handles: well inside the
/// calendar's range.
pub const WINDOW_LIMIT: i64 = 0x10_0000_0000_0000;

/// The report window for `period` (`today`, `week`, or anything else for all
/// time) at the instant `now`.
pub fn report_window(period: Option<&str>, now: i64) -> (r: (i64, i64))
    requires
        -WINDOW_LIMIT < now < WINDOW_LIMIT,
    ensures
        r.0 == report_window_spec(
            match period { Some(p) => Some(p@), None => None::<Seq<char>> },
            now as int,
        ).0,
        r.1 == now + 1,
{
    let m: i64 = now % SECS_PER_DAY;
    let md: i64 = if m < 0 { m + SECS_PER_DAY } else { m };
    assert(md == (now as int) % 86400);
    let day: i64 = (now - md) / SECS_PER_DAY;
    assert(day == (now as int) / 86400) by (nonlinear_arith)
        requires md == (now as int) % 86400, day == (now - md) / 86400, -WINDOW_LIMIT < now < WINDOW_LIMIT;
    let since: i64 = match period {
        Some(p) => if str_eq(p, "today") {
            now - md
        } else if str_eq(p, "week") {
            let w0: i64 = (day + 3) % 7;
            let w: i64 = if w0 < 0 { w0 + 7 } else { w0 };
            assert(w == weekday_of(now as int));
            let back: i64 = now - w * SECS_PER_DAY;
            let bm: i64 = back % SECS_PER_DAY;
            let bmd: i64 = if bm < 0 { bm + SECS_PER_DAY } else { bm };
            assert(bmd == (back as int) % 86400);
            back - bmd
        } else {
            0
        },
        None => 0,
    };
    (since, now + 1)
}

/// How far ahead an all-time report reaches: a hundred years of days.
pub const ALL_TIME_SPAN: i64 = 3_153_600_000;

/// The report window for the `today` and `week` flags at `now`, given the
/// instants at which today and this week (from Monday) began in local
/// time, as far as the clock and time zone gave them: from that start to
/// one second past now, or from the epoch to a hundred years past now.
pub open spec fn window_spec(
    today: bool,
    week: bool,
    now: i64,
    today_start: Option<i64>,
    week_start: Option<i64>,
) -> Result<(i64, i64), ScribeError> {
    let start = if today { today_start } else { week_start };
    if today || week {
        match start {
            Some(s) => if now < i64::MAX {
                Ok((s, (now + 1) as i64))
            } else {
                Err(ScribeError::TimeOutOfRange)
            },
            None => Err(ScribeError::TimeOutOfRange),
        }
    } else if now <= i64::MAX - ALL_TIME_SPAN {
        Ok((0, (now + ALL_TIME_SPAN) as i64))
    } else {
        Err(ScribeError::TimeOutOfRange)
    }
}

/// The clock as the program read it: the instant now, and the instants at
/// which today and this week (from Monday) began in local time, where the
/// time zone gave them.
#[derive(Debug, Clone, Copy, PartialEq, Eq)]
pub struct ClockReading {
    /// Seconds since the epoch, now.
    pub now: i64,
    /// Local midnight today.
    pub today_start: Option<i64>,
    /// Local midnight on this week's Monday.
    pub week_start: Option<i64>,
}

/// The report window for the `today` and `week` flags at the clock's
/// reading `now`, given the instants at which today and this week (from
/// Monday, see [`start_date`]) began in local time where the time zone gave
/// them: from that start to one second past now, or all time; as
/// [`window_spec`] states.
pub fn compute_time_window(today: bool, week: bool, now: i64, today_start: Option<i64>, week_start: Option<i64>) -> (r: Result<
    (i64, i64),
    ScribeError,
>)
    ensures
        r == window_spec(today, week, now, today_start, week_start),
{
    let start = if today { today_start } else { week_start };
    if today || week {
        match start {
            Some(s) => if now < i64::MAX {
                Ok((s, now + 1))
            } else {
                Err(ScribeError::TimeOutOfRange)
            },
            None => Err(ScribeError::TimeOutOfRange),
        }
    } else if now <= i64::MAX - ALL_TIME_SPAN {
        Ok((0, now + ALL_TIME_SPAN))
    } else {
        Err(ScribeError::TimeOutOfRange)
    }
}

/// The date whose local midnight starts the window, on a local date `d`
/// that is weekday `w` (0 is Monday): `d` itself for `today`, this week's
/// Monday, `w` days back, for `week`, and none for all time.
pub open spec fn window_start_date(today: bool, week: bool, d: CivilDate, w: u32) -> Option<CivilDate> {
    if today {
        Some(d)
    } else if week {
        civil_add_days(d, -(w as int) as i64)
    } else {
        None
    }
}

/// The date whose local midnight starts the window, as
/// [`window_start_date`] states.
pub fn start_date(today: bool, week: bool, d: CivilDate, w: u32) -> (r: Option<CivilDate>)
    requires
        w < 7,
    ensures
        r == window_start_date(today, week, d, w),
{
    if today {
        Some(d)
    } else if week {
        add_days(d, -(w as i64))
    } else {
        None
    }
}

/// The rule between the sections of a report.
pub open spec fn separator() -> Seq<char> {
    "────────────────────────────────────────────────────────────"@
}

/// The UTC time `ts` written with `fmt`, or its seconds where chrono's
/// calendar does not reach.
pub open spec fn stamp_text(ts: i64, fmt: Seq<char>) -> Seq<char> {
    match utc_format(ts, fmt) {
        Some(s) => s,
        None => signed_decimal(ts as int),
    }
}

/// Date and time with the zone, `%Y-%m-%d %H:%M:%S UTC`.
pub open spec fn long_stamp(ts: i64) -> Seq<char> {
    stamp_text(ts, "%Y-%m-%d %H:%M:%S UTC"@)
}

/// The date, `%Y-%m-%d`.
pub open spec fn day_stamp(ts: i64) -> Seq<char> {
    stamp_text(ts, "%Y-%m-%d"@)
}

/// Date and time, `%Y-%m-%d %H:%M:%S`.
pub open spec fn time_stamp(ts: i64) -> Seq<char> {
    stamp_text(ts, "%Y-%m-%d %H:%M:%S"@)
}

/// The lines of one pending task: its title and priority, its status and
/// creation date, and its notes where it has any.
pub open spec fn task_block(t: Task) -> Seq<Seq<char>> {
    seq![
        "- "@ + t.title@ + " ("@ + task_priority_name(t.priority) + ")"@,
        "  Status: "@ + task_status_name(t.status) + " | Created: "@ + day_stamp(t.created_at),
    ] + match t.description {
        Some(d) => seq!["  Notes: "@ + d@],
        None => Seq::empty(),
    }
}

/// The lines of the pending tasks, in order.
pub open spec fn task_blocks(ts: Seq<Task>) -> Seq<Seq<char>>
    decreases ts.len(),
{
    if ts.len() == 0 {
        Seq::empty()
    } else {
        task_blocks(ts.drop_last()) + task_block(ts.last())
    }
}

/// The line of one open todo.
pub open spec fn todo_line(t: Todo) -> Seq<char> {
    "- [ ] "@ + t.title@ + " (Created: "@ + day_stamp(t.created_at) + ")"@
}

/// The lines of one time entry: its start and end (or "in progress") and
/// duration, and its note where it has one.
pub open spec fn entry_block(e: (TimeEntry, i64)) -> Seq<Seq<char>> {
    seq![
        "- "@ + time_stamp(e.0.started_at) + " to "@ + match e.0.ended_at {
            Some(x) => time_stamp(x),
            None => "in progress"@,
        } + " ("@ + duration_text(e.1) + ")"@,
    ] + match e.0.note {
        Some(n) => seq!["  Note: "@ + n@],
        None => Seq::empty(),
    }
}

/// The lines of the time entries, in order.
pub open spec fn entry_blocks(es: Seq<(TimeEntry, i64)>) -> Seq<Seq<char>>
    decreases es.len(),
{
    if es.len() == 0 {
        Seq::empty()
    } else {
        entry_blocks(es.drop_last()) + entry_block(es.last())
    }
}

/// The share of `done` in `all`, in tenths of a percent, rounded half up;
/// zero when there is nothing.
pub open spec fn tenths(done: nat, all: nat) -> nat {
    if all == 0 {
        0
    } else {
        (done * 1000 + all / 2) / all
    }
}

/// A share in tenths of a percent, written `x.y%`.
pub open spec fn percent_text(t: nat) -> Seq<char> {
    decimal(t / 10) + "."@ + decimal(t % 10) + "%"@
}

/// The head of the detailed project report: name and slug, status and
/// stamps, the description where there is one, then the rule.
pub open spec fn detailed_head(p: Project) -> Seq<Seq<char>> {
    seq![
        "Detailed Project Report: "@ + p.name@ + " ("@ + p.slug@ + ")"@,
        "Status: "@ + project_status_name(p.status) + " | Created: "@ + long_stamp(p.created_at) + " | Updated: "@
            + long_stamp(p.updated_at),
    ] + match p.description {
        Some(d) => seq!["Description: "@ + d@],
        None => Seq::empty(),
    } + seq![separator()]
}

/// The pending-task section of the detailed project report.
pub open spec fn detailed_tasks(ts: Seq<Task>) -> Seq<Seq<char>> {
    if ts.len() == 0 {
        seq!["Pending Tasks: none"@]
    } else {
        seq!["Pending Tasks (Detailed):"@] + task_blocks(ts)
    }
}

/// The open-todo section of the detailed project report, after a blank line.
pub open spec fn detailed_todos(ts: Seq<Todo>) -> Seq<Seq<char>> {
    seq![Seq::empty()] + if ts.len() == 0 {
        seq!["Open Todos: none"@]
    } else {
        seq!["Open Todos (Detailed):"@] + ts.map_values(|t: Todo| todo_line(t))
    }
}

/// The time section of the detailed project report, after a blank line.
pub open spec fn detailed_entries(es: Seq<(TimeEntry, i64)>) -> Seq<Seq<char>> {
    seq![Seq::empty()] + if es.len() == 0 {
        seq!["Detailed Tracked Time: none"@]
    } else {
        seq!["Detailed Tracked Time:"@] + entry_blocks(es)
    }
}

/// The foot of the detailed project report: the rule, the total time, the
/// completion line and the range.
pub open spec fn detailed_foot(r: ProjectReport, range: Seq<char>) -> Seq<Seq<char>> {
    seq![
        separator(),
        "Total Project Time: "@ + duration_text(r.total_time),
        "Completion: "@ + percent_text(tenths(r.done_tasks as nat, r.all_tasks as nat)) + " ("@ + decimal(
            r.done_tasks as nat,
        ) + " tasks done, "@ + decimal(r.pending_tasks@.len()) + " pending)"@,
        "("@ + range + ")"@,
    ]
}

/// The detailed report of a project for the range labelled `range`.
pub open spec fn detailed_project_report_text(r: ProjectReport, range: Seq<char>) -> Seq<Seq<char>> {
    detailed_head(r.project) + detailed_tasks(r.pending_tasks@) + detailed_todos(r.open_todos@) + detailed_entries(
        r.time_entries@,
    ) + detailed_foot(r, range)
}

/// Appends the UTC time `ts` written with `fmt`.
fn push_stamp(out: &mut Vec<char>, ts: i64, fmt: &str)
    requires
        crate::clock::time_pattern(fmt@),
    ensures
        final(out)@ == old(out)@ + stamp_text(ts, fmt@),
{
    match utc_format_of(ts, fmt) {
        Some(s) => push_str(out, s.as_str()),
        None => push_signed_decimal(out, ts),
    }
}

/// Appends `line` to `lines`.
fn push_line(lines: &mut Vec<String>, line: &Vec<char>)
    ensures
        final(lines)@.map_values(|s: String| s@) == old(lines)@.map_values(|s: String| s@).push(line@),
{
    let s = string_of(line);
    lines.push(s);
    assert(lines@.map_values(|s: String| s@) =~= old(lines)@.map_values(|s: String| s@).push(line@));
}

/// Appends the text `t` as a line.
fn push_text(lines: &mut Vec<String>, t: &str)
    ensures
        final(lines)@.map_values(|s: String| s@) == old(lines)@.map_values(|s: String| s@).push(t@),
{
    let mut out: Vec<char> = Vec::new();
    push_str(&mut out, t);
    assert(out@ =~= t@);
    push_line(lines, &out);
}

/// Appends the lines of one pending task.
fn push_task_block(lines: &mut Vec<String>, t: &Task)
    ensures
        final(lines)@.map_values(|s: String| s@) == old(lines)@.map_values(|s: String| s@) + task_block(*t),
{
    let ghost before = lines@.map_values(|s: String| s@);
    let mut a: Vec<char> = Vec::new();
    push_str(&mut a, "- ");
    push_str(&mut a, t.title.as_str());
    push_str(&mut a, " (");
    push_str(&mut a, t.priority.as_str());
    push_str(&mut a, ")");
    push_line(lines, &a);
    let mut b: Vec<char> = Vec::new();
    push_str(&mut b, "  Status: ");
    push_str(&mut b, t.status.as_str());
    push_str(&mut b, " | Created: ");
    push_stamp(&mut b, t.created_at, "%Y-%m-%d");
    push_line(lines, &b);
    match &t.description {
        Some(d) => {
            let mut c: Vec<char> = Vec::new();
            push_str(&mut c, "  Notes: ");
            push_str(&mut c, d.as_str());
            push_line(lines, &c);
        },
        None => {},
    }
    assert(lines@.map_values(|s: String| s@) =~= before + task_block(*t));
}

/// Appends the lines of one time entry.
fn push_entry_block(lines: &mut Vec<String>, e: &(TimeEntry, i64))
    ensures
        final(lines)@.map_values(|s: String| s@) == old(lines)@.map_values(|s: String| s@) + entry_block(*e),
{
    let ghost before = lines@.map_values(|s: String| s@);
    let mut a: Vec<char> = Vec::new();
    push_str(&mut a, "- ");
    push_stamp(&mut a, e.0.started_at, "%Y-%m-%d %H:%M:%S");
    push_str(&mut a, " to ");
    match e.0.ended_at {
        Some(x) => push_stamp(&mut a, x, "%Y-%m-%d %H:%M:%S"),
        None => push_str(&mut a, "in progress"),
    }
    push_str(&mut a, " (");
    let d = format_duration(e.1);
    push_str(&mut a, d.as_str());
    push_str(&mut a, ")");
    push_line(lines, &a);
    match &e.0.note {
        Some(n) => {
            let mut c: Vec<char> = Vec::new();
            push_str(&mut c, "  Note: ");
            push_str(&mut c, n.as_str());
            push_line(lines, &c);
        },
        None => {},
    }
    assert(lines@.map_values(|s: String| s@) =~= before + entry_block(*e));
}

/// Appends the head of the detailed project report.
fn push_detailed_head(lines: &mut Vec<String>, p: &Project)
    ensures
        final(lines)@.map_values(|s: String| s@) == old(lines)@.map_values(|s: String| s@) + detailed_head(*p),
{
    let ghost before = lines@.map_values(|s: String| s@);
    let mut a: Vec<char> = Vec::new();
    push_str(&mut a, "Detailed Project Report: ");
    push_str(&mut a, p.name.as_str());
    push_str(&mut a, " (");
    push_str(&mut a, p.slug.as_str());
    push_str(&mut a, ")");
    push_line(lines, &a);
    let mut b: Vec<char> = Vec::new();
    push_str(&mut b, "Status: ");
    push_str(&mut b, p.status.as_str());
    push_str(&mut b, " | Created: ");
    push_stamp(&mut b, p.created_at, "%Y-%m-%d %H:%M:%S UTC");
    push_str(&mut b, " | Updated: ");
    push_stamp(&mut b, p.updated_at, "%Y-%m-%d %H:%M:%S UTC");
    push_line(lines, &b);
    match &p.description {
        Some(d) => {
            let mut c: Vec<char> = Vec::new();
            push_str(&mut c, "Description: ");
            push_str(&mut c, d.as_str());
            push_line(lines, &c);
        },
        None => {},
    }
    push_text(lines, "────────────────────────────────────────────────────────────");
    assert(lines@.map_values(|s: String| s@) =~= before + detailed_head(*p));
}

/// Appends the pending-task section of the detailed project report.
fn push_detailed_tasks(lines: &mut Vec<String>, ts: &Vec<Task>)
    ensures
        final(lines)@.map_values(|s: String| s@) == old(lines)@.map_values(|s: String| s@) + detailed_tasks(ts@),
{
    let ghost before = lines@.map_values(|s: String| s@);
    if ts.len() == 0 {
        push_text(lines, "Pending Tasks: none");
    } else {
        push_text(lines, "Pending Tasks (Detailed):");
        let ghost start = lines@.map_values(|s: String| s@);
        let mut i: usize = 0;
        while i < ts.len()
            invariant
                0 <= i <= ts@.len(),
                lines@.map_values(|s: String| s@) == start + task_blocks(ts@.take(i as int)),
            decreases ts@.len() - i,
        {
            push_task_block(lines, &ts[i]);
            assert(ts@.take(i + 1).drop_last() =~= ts@.take(i as int));
            i = i + 1;
        }
        assert(ts@.take(ts@.len() as int) =~= ts@);
    }
    assert(lines@.map_values(|s: String| s@) =~= before + detailed_tasks(ts@));
}

/// Appends the open-todo section of the detailed project report.
fn push_detailed_todos(lines: &mut Vec<String>, ts: &Vec<Todo>)
    ensures
        final(lines)@.map_values(|s: String| s@) == old(lines)@.map_values(|s: String| s@) + detailed_todos(ts@),
{
    let ghost before = lines@.map_values(|s: String| s@);
    let empty: Vec<char> = Vec::new();
    push_line(lines, &empty);
    if ts.len() == 0 {
        push_text(lines, "Open Todos: none");
    } else {
        push_text(lines, "Open Todos (Detailed):");
        let ghost start = lines@.map_values(|s: String| s@);
        let mut i: usize = 0;
        while i < ts.len()
            invariant
                0 <= i <= ts@.len(),
                lines@.map_values(|s: String| s@) == start + ts@.take(i as int).map_values(|t: Todo| todo_line(t)),
            decreases ts@.len() - i,
        {
            let t = &ts[i];
            let mut c: Vec<char> = Vec::new();
            push_str(&mut c, "- [ ] ");
            push_str(&mut c, t.title.as_str());
            push_str(&mut c, " (Created: ");
            push_stamp(&mut c, t.created_at, "%Y-%m-%d");
            push_str(&mut c, ")");
            push_line(lines, &c);
            assert(ts@.take(i + 1).map_values(|t: Todo| todo_line(t)) =~= ts@.take(i as int).map_values(
                |t: Todo| todo_line(t),
            ).push(todo_line(ts@[i as int])));
            i = i + 1;
        }
        assert(ts@.take(ts@.len() as int) =~= ts@);
    }
    assert(lines@.map_values(|s: String| s@) =~= before + detailed_todos(ts@));
}

/// Appends the time section of the detailed project report.
fn push_detailed_entries(lines: &mut Vec<String>, es: &Vec<(TimeEntry, i64)>)
    ensures
        final(lines)@.map_values(|s: String| s@) == old(lines)@.map_values(|s: String| s@) + detailed_entries(es@),
{
    let ghost before = lines@.map_values(|s: String| s@);
    let empty: Vec<char> = Vec::new();
    push_line(lines, &empty);
    if es.len() == 0 {
        push_text(lines, "Detailed Tracked Time: none");
    } else {
        push_text(lines, "Detailed Tracked Time:");
        let ghost start = lines@.map_values(|s: String| s@);
        let mut i: usize = 0;
        while i < es.len()
            invariant
                0 <= i <= es@.len(),
                lines@.map_values(|s: String| s@) == start + entry_blocks(es@.take(i as int)),
            decreases es@.len() - i,
        {
            push_entry_block(lines, &es[i]);
            assert(es@.take(i + 1).drop_last() =~= es@.take(i as int));
            i = i + 1;
        }
        assert(es@.take(es@.len() as int) =~= es@);
    }
    assert(lines@.map_values(|s: String| s@) =~= before + detailed_entries(es@));
}

/// Appends the foot of the detailed project report.
fn push_detailed_foot(lines: &mut Vec<String>, r: &ProjectReport, range: &str)
    ensures
        final(lines)@.map_values(|s: String| s@) == old(lines)@.map_values(|s: String| s@) + detailed_foot(*r, range@),
{
    let ghost before = lines@.map_values(|s: String| s@);
    push_text(lines, "────────────────────────────────────────────────────────────");
    let mut t: Vec<char> = Vec::new();
    push_str(&mut t, "Total Project Time: ");
    let d = format_duration(r.total_time);
    push_str(&mut t, d.as_str());
    push_line(lines, &t);
    let done = r.done_tasks as u128;
    let all = r.all_tasks as u128;
    let tenth: u128 = if all == 0 { 0 } else { (done * 1000 + all / 2) / all };
    let mut c: Vec<char> = Vec::new();
    push_str(&mut c, "Completion: ");
    push_wide_decimal(&mut c, tenth / 10);
    push_str(&mut c, ".");
    push_wide_decimal(&mut c, tenth % 10);
    push_str(&mut c, "% (");
    push_wide_decimal(&mut c, done);
    push_str(&mut c, " tasks done, ");
    push_decimal(&mut c, r.pending_tasks.len() as u64);
    push_str(&mut c, " pending)");
    proof {
        reveal_strlit("% (");
        reveal_strlit("%");
        reveal_strlit(" (");
        assert(c@ =~= "Completion: "@ + percent_text(tenths(r.done_tasks as nat, r.all_tasks as nat)) + " ("@
            + decimal(r.done_tasks as nat) + " tasks done, "@ + decimal(r.pending_tasks@.len()) + " pending)"@);
    }
    push_line(lines, &c);
    let mut e: Vec<char> = Vec::new();
    push_str(&mut e, "(");
    push_str(&mut e, range);
    push_str(&mut e, ")");
    push_line(lines, &e);
    assert(lines@.map_values(|s: String| s@) =~= before + detailed_foot(*r, range@));
}

/// The lines of the detailed report of a project for the range labelled
/// `range`, as [`detailed_project_report_text`] states.
pub fn detailed_project_report_lines(r: &ProjectReport, range: &str) -> (v: Vec<String>)
    ensures
        v@.map_values(|s: String| s@) == detailed_project_report_text(*r, range@),
{
    let mut lines: Vec<String> = Vec::new();
    assert(lines@.map_values(|s: String| s@) =~= Seq::<Seq<char>>::empty());
    push_detailed_head(&mut lines, &r.project);
    push_detailed_tasks(&mut lines, &r.pending_tasks);
    push_detailed_todos(&mut lines, &r.open_todos);
    push_detailed_entries(&mut lines, &r.time_entries);
    push_detailed_foot(&mut lines, r, range);
    assert(lines@.map_values(|s: String| s@) =~= detailed_project_report_text(*r, range@));
    lines
}

/// A date written `YYYY-MM-DD`.
pub open spec fn date_text(d: CivilDate) -> Seq<char> {
    year_text(d.year) + field_text('-', d.month) + field_text('-', d.day)
}

/// The head of the detailed task report: title and slug, project, priority
/// and status, the due date and description where there are any, the rule
/// and the creation.
pub open spec fn detailed_task_head(r: TaskReport) -> Seq<Seq<char>> {
    let t = r.task;
    seq![
        "Task Report: "@ + t.title@ + " ("@ + t.slug@ + ")"@,
        "Project: "@ + r.project_slug@ + " | Priority: "@ + task_priority_name(t.priority) + " | Status: "@
            + task_status_name(t.status),
    ] + match t.due_date {
        Some(d) => seq!["Due: "@ + date_text(d)],
        None => Seq::empty(),
    } + match t.description {
        Some(d) => seq!["Description: "@ + d@],
        None => Seq::empty(),
    } + seq![separator(), "Lifecycle:"@, "- "@ + long_stamp(t.created_at) + ": Created"@]
}

/// The detailed report of a task.
pub open spec fn detailed_task_report_text(r: TaskReport) -> Seq<Seq<char>> {
    detailed_task_head(r) + seq![Seq::empty()] + (if r.time_entries@.len() == 0 {
        seq!["Related Time Tracking: none"@]
    } else {
        seq!["Detailed Tracked Time:"@] + entry_blocks(r.time_entries@)
    }) + seq![separator(), "Total Task Time: "@ + duration_text(r.total_time)]
}

/// Appends the head of the detailed task report.
fn push_task_head(lines: &mut Vec<String>, r: &TaskReport)
    ensures
        final(lines)@.map_values(|s: String| s@) == old(lines)@.map_values(|s: String| s@) + detailed_task_head(*r),
{
    let ghost before = lines@.map_values(|s: String| s@);
    let t = &r.task;
    let mut a: Vec<char> = Vec::new();
    push_str(&mut a, "Task Report: ");
    push_str(&mut a, t.title.as_str());
    push_str(&mut a, " (");
    push_str(&mut a, t.slug.as_str());
    push_str(&mut a, ")");
    push_line(lines, &a);
    let mut b: Vec<char> = Vec::new();
    push_str(&mut b, "Project: ");
    push_str(&mut b, r.project_slug.as_str());
    push_str(&mut b, " | Priority: ");
    push_str(&mut b, t.priority.as_str());
    push_str(&mut b, " | Status: ");
    push_str(&mut b, t.status.as_str());
    push_line(lines, &b);
    match t.due_date {
        Some(d) => {
            let mut c: Vec<char> = Vec::new();
            push_str(&mut c, "Due: ");
            push_year(&mut c, d.year);
            push_field(&mut c, '-', d.month);
            push_field(&mut c, '-', d.day);
            assert(c@ =~= "Due: "@ + date_text(d));
            push_line(lines, &c);
        },
        None => {},
    }
    match &t.description {
        Some(d) => {
            let mut c: Vec<char> = Vec::new();
            push_str(&mut c, "Description: ");
            push_str(&mut c, d.as_str());
            push_line(lines, &c);
        },
        None => {},
    }
    push_text(lines, "────────────────────────────────────────────────────────────");
    push_text(lines, "Lifecycle:");
    let mut e: Vec<char> = Vec::new();
    push_str(&mut e, "- ");
    push_stamp(&mut e, t.created_at, "%Y-%m-%d %H:%M:%S UTC");
    push_str(&mut e, ": Created");
    push_line(lines, &e);
    assert(lines@.map_values(|s: String| s@) =~= before + detailed_task_head(*r));
}

/// The lines of the detailed report of a task, as
/// [`detailed_task_report_text`] states.
pub fn detailed_task_report_lines(r: &TaskReport) -> (v: Vec<String>)
    ensures
        v@.map_values(|s: String| s@) == detailed_task_report_text(*r),
{
    let mut lines: Vec<String> = Vec::new();
    assert(lines@.map_values(|s: String| s@) =~= Seq::<Seq<char>>::empty());
    push_task_head(&mut lines, r);
    let ghost head = lines@.map_values(|s: String| s@);
    let empty: Vec<char> = Vec::new();
    push_line(&mut lines, &empty);
    let es = &r.time_entries;
    if es.len() == 0 {
        push_text(&mut lines, "Related Time Tracking: none");
    } else {
        push_text(&mut lines, "Detailed Tracked Time:");
        let ghost start = lines@.map_values(|s: String| s@);
        let mut i: usize = 0;
        while i < es.len()
            invariant
                0 <= i <= es@.len(),
                lines@.map_values(|s: String| s@) == start + entry_blocks(es@.take(i as int)),
            decreases es@.len() - i,
        {
            push_entry_block(&mut lines, &es[i]);
            assert(es@.take(i + 1).drop_last() =~= es@.take(i as int));
            i = i + 1;
        }
        assert(es@.take(es@.len() as int) =~= es@);
    }
    push_text(&mut lines, "────────────────────────────────────────────────────────────");
    let mut t: Vec<char> = Vec::new();
    push_str(&mut t, "Total Task Time: ");
    let d = format_duration(r.total_time);
    push_str(&mut t, d.as_str());
    push_line(&mut lines, &t);
    assert(lines@.map_values(|s: String| s@) =~= detailed_task_report_text(*r));
    lines
}

/// A line made of `head`, the count `n` in decimal, and `tail`.
pub open spec fn count_line(head: Seq<char>, n: usize, tail: Seq<char>) -> Seq<char> {
    head + decimal(n as nat) + tail
}

/// The text lines of the summary report for the range labelled `label`:
/// the compact form, or the detailed one with `detailed`.
pub open spec fn summary_report_text(r: SummaryReport, label: Seq<char>, detailed: bool) -> Seq<Seq<char>> {
    if detailed {
        seq![
            "Detailed Scribe Summary Report ("@ + label + ")"@,
            separator(),
            count_line("Active Projects: "@, r.active_projects, Seq::empty()),
            count_line("Pending Tasks: "@, r.pending_tasks, " ("@) + count_line(
                Seq::empty(),
                r.overdue_tasks,
                " overdue)"@,
            ),
            count_line("Open Todos: "@, r.open_todos, Seq::empty()),
            count_line("Unprocessed Inbox Items: "@, r.items_in_inbox, Seq::empty()),
            count_line("Active Reminders: "@, r.active_reminders, Seq::empty()),
            "Time Tracked: "@ + duration_text(r.total_time_tracked),
            separator(),
        ]
    } else {
        seq![
            "Scribe Summary Report ("@ + label + ")"@,
            separator(),
            count_line("Projects:     "@, r.active_projects, " active"@),
            count_line("Tasks:        "@, r.pending_tasks, " pending, "@) + count_line(
                Seq::empty(),
                r.overdue_tasks,
                " overdue"@,
            ),
            count_line("Todos:        "@, r.open_todos, " open"@),
            count_line("Inbox:        "@, r.items_in_inbox, " unprocessed items"@),
            count_line("Reminders:    "@, r.active_reminders, " active"@),
            "Time Tracked: "@ + duration_text(r.total_time_tracked),
            separator(),
        ]
    }
}

/// Appends `head`, the count `n` in decimal, and `tail`.
fn push_count(out: &mut Vec<char>, head: &str, n: usize, tail: &str)
    ensures
        final(out)@ == old(out)@ + count_line(head@, n, tail@),
{
    push_str(out, head);
    push_decimal(out, n as u64);
    push_str(out, tail);
    assert(out@ =~= old(out)@ + count_line(head@, n, tail@));
}

/// The lines of the summary report for the range labelled `label`, as
/// [`summary_report_text`] states.
pub fn summary_report_lines(r: &SummaryReport, label: &str, detailed: bool) -> (v: Vec<String>)
    ensures
        v@.map_values(|s: String| s@) == summary_report_text(*r, label@, detailed),
{
    let mut lines: Vec<String> = Vec::new();
    let mut a: Vec<char> = Vec::new();
    if detailed {
        push_str(&mut a, "Detailed Scribe Summary Report (");
    } else {
        push_str(&mut a, "Scribe Summary Report (");
    }
    push_str(&mut a, label);
    push_str(&mut a, ")");
    push_line(&mut lines, &a);
    push_text(&mut lines, "────────────────────────────────────────────────────────────");
    let mut b: Vec<char> = Vec::new();
    let mut c: Vec<char> = Vec::new();
    let mut d: Vec<char> = Vec::new();
    let mut e: Vec<char> = Vec::new();
    let mut f: Vec<char> = Vec::new();
    if detailed {
        push_count(&mut b, "Active Projects: ", r.active_projects, "");
        push_count(&mut c, "Pending Tasks: ", r.pending_tasks, " (");
        push_count(&mut c, "", r.overdue_tasks, " overdue)");
        push_count(&mut d, "Open Todos: ", r.open_todos, "");
        push_count(&mut e, "Unprocessed Inbox Items: ", r.items_in_inbox, "");
        push_count(&mut f, "Active Reminders: ", r.active_reminders, "");
    } else {
        push_count(&mut b, "Projects:     ", r.active_projects, " active");
        push_count(&mut c, "Tasks:        ", r.pending_tasks, " pending, ");
        push_count(&mut c, "", r.overdue_tasks, " overdue");
        push_count(&mut d, "Todos:        ", r.open_todos, " open");
        push_count(&mut e, "Inbox:        ", r.items_in_inbox, " unprocessed items");
        push_count(&mut f, "Reminders:    ", r.active_reminders, " active");
    }
    push_line(&mut lines, &b);
    push_line(&mut lines, &c);
    push_line(&mut lines, &d);
    push_line(&mut lines, &e);
    push_line(&mut lines, &f);
    let mut t: Vec<char> = Vec::new();
    push_str(&mut t, "Time Tracked: ");
    let dur = format_duration(r.total_time_tracked);
    push_str(&mut t, dur.as_str());
    push_line(&mut lines, &t);
    push_text(&mut lines, "────────────────────────────────────────────────────────────");
    proof {
        reveal_strlit("");
    }
    assert(lines@.map_values(|s: String| s@) =~= summary_report_text(*r, label@, detailed));
    lines
}

} // verus!
