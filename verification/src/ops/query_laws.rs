//! Laws on what the queries return: which reminders a check fires, which
//! rows each list keeps, which entries a time report takes, and which
//! notes a search finds.

use vstd::prelude::*;
use crate::domain::{
    CaptureItem, Note, Project, ProjectId, ProjectStatus, Reminder, Task, TaskPriority, TaskStatus, TimeEntry, Todo,
};
use crate::ops::inbox::capture_filter;
use crate::ops::projects::project_filter;
use crate::ops::reminders::reminder_filter;
use crate::ops::tracker::report_filter;
use crate::ops::notes::{mentions, search_hits, SEARCH_LIMIT};
use crate::ops::reminders::{checked_at, due_at, fired_at};
use crate::ops::tasks::task_filter;
use crate::ops::todos::todo_filter;
use crate::service::contains_seq;

verus! {

/// Checking reminders at `now` fires exactly the unfired, unarchived ones
/// whose time has come. Every reminder it returns was, before the check,
/// a row that was unarchived, unfired and set no later than `now`, and it
/// comes back fired; every archived or already fired row, and every row set
/// after `now`, is left as it was; every other row is marked fired.
pub proof fn law_check_fires_only_live_due_reminders(rows: Seq<Reminder>, now: i64)
    ensures
        forall|k: int| 0 <= k < fired_at(rows, now).len() ==> {
            &&& (#[trigger] fired_at(rows, now)[k]).archived_at is None
            &&& fired_at(rows, now)[k].fired
            &&& fired_at(rows, now)[k].remind_at <= now
            &&& rows.contains((Reminder { fired: false, ..fired_at(rows, now)[k] }))
        },
        forall|j: int|
            0 <= j < rows.len() && (rows[j].archived_at is Some || rows[j].fired || rows[j].remind_at > now)
                ==> #[trigger] checked_at(rows, now)[j] == rows[j],
        forall|j: int|
            0 <= j < rows.len() && rows[j].archived_at is None && !rows[j].fired && rows[j].remind_at <= now
                ==> #[trigger] checked_at(rows, now)[j] == (Reminder { fired: true, ..rows[j] }),
{
    let f = rows.filter(due_at(now));
    assert forall|k: int| 0 <= k < fired_at(rows, now).len() implies {
        &&& (#[trigger] fired_at(rows, now)[k]).archived_at is None
        &&& fired_at(rows, now)[k].fired
        &&& fired_at(rows, now)[k].remind_at <= now
        &&& rows.contains((Reminder { fired: false, ..fired_at(rows, now)[k] }))
    } by {
        rows.lemma_filter_pred(due_at(now), k);
        assert(f.contains(f[k]));
        rows.lemma_filter_contains_rev(due_at(now), f[k]);
        assert((Reminder { fired: false, ..fired_at(rows, now)[k] }) == f[k]);
    }
}

/// A task list keeps exactly the rows that pass every filter given: with a
/// project, only that project's tasks; with a status or a priority, only
/// tasks of that status or priority; without `include_archived`, only
/// unarchived tasks. Every row that passes them all is listed, and nothing
/// but rows is.
pub proof fn law_task_list_honours_filters(
    rows: Seq<Task>,
    project_id: Option<ProjectId>,
    status: Option<TaskStatus>,
    priority: Option<TaskPriority>,
    include_archived: bool,
)
    ensures
        forall|k: int| 0 <= k < rows.filter(task_filter(project_id, status, priority, include_archived)).len() ==> {
            let t = #[trigger] rows.filter(task_filter(project_id, status, priority, include_archived))[k];
            &&& rows.contains(t)
            &&& project_id is Some ==> t.project_id == project_id->0
            &&& status is Some ==> t.status == status->0
            &&& priority is Some ==> t.priority == priority->0
            &&& !include_archived ==> t.archived_at is None
        },
        forall|j: int|
            0 <= j < rows.len()
            && (project_id is Some ==> rows[j].project_id == project_id->0)
            && (status is Some ==> rows[j].status == status->0)
            && (priority is Some ==> rows[j].priority == priority->0)
            && (include_archived || rows[j].archived_at is None)
                ==> rows.filter(task_filter(project_id, status, priority, include_archived)).contains(#[trigger] rows[j]),
{
    let p = task_filter(project_id, status, priority, include_archived);
    let f = rows.filter(p);
    assert forall|k: int| 0 <= k < f.len() implies rows.contains(#[trigger] f[k]) by {
        assert(f.contains(f[k]));
        rows.lemma_filter_contains_rev(p, f[k]);
    }
    assert forall|k: int| 0 <= k < f.len() implies p(#[trigger] f[k]) by {
        rows.lemma_filter_pred(p, k);
    }
    assert forall|j: int|
        0 <= j < rows.len()
        && (project_id is Some ==> rows[j].project_id == project_id->0)
        && (status is Some ==> rows[j].status == status->0)
        && (priority is Some ==> rows[j].priority == priority->0)
        && (include_archived || rows[j].archived_at is None)
        implies f.contains(#[trigger] rows[j]) by {
        rows.lemma_filter_contains(p, j);
    }
}

/// A todo list keeps exactly the rows that pass every filter given: with a
/// project, only that project's todos; without `include_done`, only open
/// todos; without `include_archived`, only unarchived ones. Every row that
/// passes them all is listed, and nothing but rows is.
pub proof fn law_todo_list_honours_filters(
    rows: Seq<Todo>,
    project_id: Option<ProjectId>,
    include_done: bool,
    include_archived: bool,
)
    ensures
        forall|k: int| 0 <= k < rows.filter(todo_filter(project_id, include_done, include_archived)).len() ==> {
            let t = #[trigger] rows.filter(todo_filter(project_id, include_done, include_archived))[k];
            &&& rows.contains(t)
            &&& project_id is Some ==> t.project_id == project_id->0
            &&& !include_done ==> !t.done
            &&& !include_archived ==> t.archived_at is None
        },
        forall|j: int|
            0 <= j < rows.len()
            && (project_id is Some ==> rows[j].project_id == project_id->0)
            && (include_done || !rows[j].done)
            && (include_archived || rows[j].archived_at is None)
                ==> rows.filter(todo_filter(project_id, include_done, include_archived)).contains(#[trigger] rows[j]),
{
    let p = todo_filter(project_id, include_done, include_archived);
    let f = rows.filter(p);
    assert forall|k: int| 0 <= k < f.len() implies rows.contains(#[trigger] f[k]) by {
        assert(f.contains(f[k]));
        rows.lemma_filter_contains_rev(p, f[k]);
    }
    assert forall|k: int| 0 <= k < f.len() implies p(#[trigger] f[k]) by {
        rows.lemma_filter_pred(p, k);
    }
    assert forall|j: int|
        0 <= j < rows.len()
        && (project_id is Some ==> rows[j].project_id == project_id->0)
        && (include_done || !rows[j].done)
        && (include_archived || rows[j].archived_at is None)
        implies f.contains(#[trigger] rows[j]) by {
        rows.lemma_filter_contains(p, j);
    }
}

/// A note search finds notes by title as well as by content: every note it
/// returns holds the query in its title or its content, it returns at most
/// [`SEARCH_LIMIT`] notes, and when there are no more notes than that, every
/// note whose title or content holds the query is among them.
pub proof fn law_search_finds_title_and_content(notes: Seq<Note>, q: Seq<char>)
    ensures
        search_hits(notes, q).len() <= SEARCH_LIMIT,
        forall|k: int| 0 <= k < search_hits(notes, q).len() ==> {
            let n = #[trigger] search_hits(notes, q)[k];
            notes.contains(n) && (contains_seq(n.title@, q) || contains_seq(n.content@, q))
        },
        notes.len() <= SEARCH_LIMIT ==> forall|j: int|
            0 <= j < notes.len() && contains_seq(notes[j].title@, q) ==> search_hits(notes, q).contains(#[trigger] notes[j]),
        notes.len() <= SEARCH_LIMIT ==> forall|j: int|
            0 <= j < notes.len() && contains_seq(notes[j].content@, q) ==> search_hits(notes, q).contains(#[trigger] notes[j]),
{
    let p = mentions(q);
    let f = notes.filter(p);
    let h = search_hits(notes, q);
    notes.lemma_filter_len(p);
    assert forall|k: int| 0 <= k < h.len() implies {
        let n = #[trigger] h[k];
        notes.contains(n) && (contains_seq(n.title@, q) || contains_seq(n.content@, q))
    } by {
        assert(h[k] == f[k]);
        notes.lemma_filter_pred(p, k);
        assert(f.contains(f[k]));
        notes.lemma_filter_contains_rev(p, f[k]);
    }
    if notes.len() <= SEARCH_LIMIT {
        assert(h =~= f);
        assert forall|j: int| 0 <= j < notes.len() && contains_seq(notes[j].title@, q) implies h.contains(
            #[trigger] notes[j],
        ) by {
            notes.lemma_filter_contains(p, j);
        }
        assert forall|j: int| 0 <= j < notes.len() && contains_seq(notes[j].content@, q) implies h.contains(
            #[trigger] notes[j],
        ) by {
            notes.lemma_filter_contains(p, j);
        }
    }
}

/// A reminder list keeps exactly the rows that pass its filters: with a
/// project, only that project's reminders; without `include_archived`,
/// only unarchived ones. Every row that passes both is listed, and nothing
/// but rows is.
pub proof fn law_reminder_list_honours_filters(rows: Seq<Reminder>, project_id: Option<ProjectId>, include_archived: bool)
    ensures
        forall|k: int| 0 <= k < rows.filter(reminder_filter(project_id, include_archived)).len() ==> {
            let r = #[trigger] rows.filter(reminder_filter(project_id, include_archived))[k];
            &&& rows.contains(r)
            &&& project_id is Some ==> r.project_id == project_id->0
            &&& !include_archived ==> r.archived_at is None
        },
        forall|j: int|
            0 <= j < rows.len() && (project_id is Some ==> rows[j].project_id == project_id->0) && (include_archived
                || rows[j].archived_at is None) ==> rows.filter(reminder_filter(project_id, include_archived)).contains(
                #[trigger] rows[j],
            ),
{
    let p = reminder_filter(project_id, include_archived);
    let f = rows.filter(p);
    assert forall|k: int| 0 <= k < f.len() implies rows.contains(#[trigger] f[k]) && p(f[k]) by {
        assert(f.contains(f[k]));
        rows.lemma_filter_contains_rev(p, f[k]);
        rows.lemma_filter_pred(p, k);
    }
    assert forall|j: int|
        0 <= j < rows.len() && (project_id is Some ==> rows[j].project_id == project_id->0) && (include_archived
            || rows[j].archived_at is None) implies f.contains(#[trigger] rows[j]) by {
        rows.lemma_filter_contains(p, j);
    }
}

/// A project list keeps exactly the rows that pass its filters: with a
/// status, only projects of that status; without `include_archived`, only
/// unarchived ones. Every row that passes both is listed, and nothing but
/// rows is.
pub proof fn law_project_list_honours_filters(rows: Seq<Project>, status: Option<ProjectStatus>, include_archived: bool)
    ensures
        forall|k: int| 0 <= k < rows.filter(project_filter(status, include_archived)).len() ==> {
            let x = #[trigger] rows.filter(project_filter(status, include_archived))[k];
            &&& rows.contains(x)
            &&& status is Some ==> x.status == status->0
            &&& !include_archived ==> x.archived_at is None
        },
        forall|j: int|
            0 <= j < rows.len() && (status is Some ==> rows[j].status == status->0) && (include_archived
                || rows[j].archived_at is None) ==> rows.filter(project_filter(status, include_archived)).contains(
                #[trigger] rows[j],
            ),
{
    let p = project_filter(status, include_archived);
    let f = rows.filter(p);
    assert forall|k: int| 0 <= k < f.len() implies rows.contains(#[trigger] f[k]) && p(f[k]) by {
        assert(f.contains(f[k]));
        rows.lemma_filter_contains_rev(p, f[k]);
        rows.lemma_filter_pred(p, k);
    }
    assert forall|j: int|
        0 <= j < rows.len() && (status is Some ==> rows[j].status == status->0) && (include_archived
            || rows[j].archived_at is None) implies f.contains(#[trigger] rows[j]) by {
        rows.lemma_filter_contains(p, j);
    }
}

/// The inbox list shows only unprocessed items unless processed ones are
/// asked for, and every item that qualifies is shown.
pub proof fn law_inbox_list_honours_filter(rows: Seq<CaptureItem>, include_processed: bool)
    ensures
        forall|k: int| 0 <= k < rows.filter(capture_filter(include_processed)).len() ==> {
            let c = #[trigger] rows.filter(capture_filter(include_processed))[k];
            rows.contains(c) && (!include_processed ==> !c.processed)
        },
        forall|j: int|
            0 <= j < rows.len() && (include_processed || !rows[j].processed) ==> rows.filter(
                capture_filter(include_processed),
            ).contains(#[trigger] rows[j]),
{
    let p = capture_filter(include_processed);
    let f = rows.filter(p);
    assert forall|k: int| 0 <= k < f.len() implies rows.contains(#[trigger] f[k]) && p(f[k]) by {
        assert(f.contains(f[k]));
        rows.lemma_filter_contains_rev(p, f[k]);
        rows.lemma_filter_pred(p, k);
    }
    assert forall|j: int| 0 <= j < rows.len() && (include_processed || !rows[j].processed) implies f.contains(
        #[trigger] rows[j],
    ) by {
        rows.lemma_filter_contains(p, j);
    }
}

/// A time report over `[since, until)` takes exactly the completed,
/// unarchived entries started in the window (of the project, when one is
/// given): every entry it takes is one, and every such entry is taken.
pub proof fn law_time_report_takes_window(rows: Seq<TimeEntry>, project_id: Option<ProjectId>, since: i64, until: i64)
    ensures
        forall|k: int| 0 <= k < rows.filter(report_filter(project_id, since, until)).len() ==> {
            let e = #[trigger] rows.filter(report_filter(project_id, since, until))[k];
            &&& rows.contains(e)
            &&& e.ended_at is Some
            &&& e.archived_at is None
            &&& since <= e.started_at < until
            &&& project_id is Some ==> e.project_id == project_id->0
        },
        forall|j: int|
            0 <= j < rows.len() && rows[j].ended_at is Some && rows[j].archived_at is None && since <= rows[j].started_at
                < until && (project_id is Some ==> rows[j].project_id == project_id->0) ==> rows.filter(
                report_filter(project_id, since, until),
            ).contains(#[trigger] rows[j]),
{
    let p = report_filter(project_id, since, until);
    let f = rows.filter(p);
    assert forall|k: int| 0 <= k < f.len() implies rows.contains(#[trigger] f[k]) && p(f[k]) by {
        assert(f.contains(f[k]));
        rows.lemma_filter_contains_rev(p, f[k]);
        rows.lemma_filter_pred(p, k);
    }
    assert forall|j: int|
        0 <= j < rows.len() && rows[j].ended_at is Some && rows[j].archived_at is None && since <= rows[j].started_at
            < until && (project_id is Some ==> rows[j].project_id == project_id->0) implies f.contains(
        #[trigger] rows[j],
    ) by {
        rows.lemma_filter_contains(p, j);
    }
}

} // verus!
