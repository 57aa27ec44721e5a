//! Laws that tie the operations together: what archiving a project does to
//! everything it owns, what restoring undoes, what checking reminders
//! leaves, why at most one timer runs, and what syncing a note's links
//! leaves behind.

use vstd::prelude::*;
use crate::domain::links::{first_occurrences, lemma_first_occurrences_distinct, link_slugs};
use crate::domain::project::project_status_name;
use crate::domain::task::{task_priority_name, task_status_name};
use crate::domain::{
    Project, ProjectStatus, Reminder, Task, TaskPriority, TaskStatus, TimeEntry, Todo, TodoPatch,
};
use crate::ops::notes::{link_pair, not_from, other_than, synced_pairs, wanted_links};
use crate::domain::Link;
use crate::ops::reminders::{checked_at, due_at, fired_at, is_due};
use crate::ops::todos::patched_todo;
use crate::ops::tracker::{first_running, has_running, is_running, single_running};
use crate::store::table::{cascade, has_key, keys_distinct, lemma_key_index, lookup, Archivable, Owned, Record};

verus! {

/// Archiving a project archives everything it owns: after the cascade for
/// `pid`, every row owned by `pid` is archived, every other row is
/// unchanged, and no row changes slug, id or owner.
pub proof fn law_cascade_archives_owned<T: Owned>(rows: Seq<T>, pid: crate::domain::ProjectId, now: i64)
    ensures
        cascade(rows, pid, now).len() == rows.len(),
        forall|i: int| 0 <= i < rows.len() && rows[i].owner() == pid ==> (#[trigger] cascade(
            rows,
            pid,
            now,
        )[i]).archived() is Some,
        forall|i: int| 0 <= i < rows.len() && rows[i].owner() != pid ==> #[trigger] cascade(
            rows,
            pid,
            now,
        )[i] == rows[i],
        forall|i: int| 0 <= i < rows.len() && rows[i].archived() is Some ==> #[trigger] cascade(
            rows,
            pid,
            now,
        )[i] == rows[i],
        forall|i: int|
            0 <= i < rows.len() ==> (#[trigger] cascade(rows, pid, now)[i]).key() == rows[i].key()
                && cascade(rows, pid, now)[i].ident() == rows[i].ident() && cascade(
                rows,
                pid,
                now,
            )[i].owner() == rows[i].owner(),
{
    assert forall|i: int| 0 <= i < rows.len() implies {
        let c = #[trigger] cascade(rows, pid, now)[i];
        &&& (rows[i].owner() == pid ==> c.archived() is Some)
        &&& c.key() == rows[i].key()
        &&& c.ident() == rows[i].ident()
        &&& c.owner() == rows[i].owner()
    } by {
        rows[i].lemma_archived_as(Some(now), now);
        rows[i].lemma_owner_kept(Some(now), now);
    }
}

/// Restoring a project undoes archiving it: a project archived at `t` and
/// restored at `u` is the project it was, touched at `u`.
pub proof fn law_project_restore_undoes_archive(p: Project, t: i64, u: i64)
    requires
        p.archived_at is None,
    ensures
        p.archived_as(Some(t), t).archived_as(None, u) == (Project { updated_at: u, ..p }),
{
}

/// Restoring a task undoes archiving it, up to the time it was touched.
pub proof fn law_task_restore_undoes_archive(x: Task, t: i64, u: i64)
    requires
        x.archived_at is None,
    ensures
        x.archived_as(Some(t), t).archived_as(None, u) == (Task { updated_at: u, ..x }),
{
}

/// Restoring a todo undoes archiving it, up to the time it was touched.
pub proof fn law_todo_restore_undoes_archive(x: Todo, t: i64, u: i64)
    requires
        x.archived_at is None,
    ensures
        x.archived_as(Some(t), t).archived_as(None, u) == (Todo { updated_at: u, ..x }),
{
}

/// Restoring a reminder undoes archiving it exactly.
pub proof fn law_reminder_restore_undoes_archive(x: Reminder, t: i64, u: i64)
    requires
        x.archived_at is None,
    ensures
        x.archived_as(Some(t), t).archived_as(None, u) == x,
{
}

/// Marking a todo undone undoes marking it done, up to the time it was
/// touched.
pub proof fn law_todo_undone_undoes_done(x: Todo, t: i64, u: i64)
    requires
        !x.done,
    ensures
        patched_todo(patched_todo(x, TodoPatch::spec_with_done(true), t), TodoPatch::spec_with_done(false), u)
            == (Todo { updated_at: u, ..x }),
{
}

/// After checking reminders at `now`, none is due at `now`, and checking
/// again at the same instant fires nothing and changes nothing.
pub proof fn law_check_due_settles(rows: Seq<Reminder>, now: i64)
    ensures
        forall|i: int| 0 <= i < checked_at(rows, now).len() ==> !is_due(#[trigger] checked_at(rows, now)[i], now),
        checked_at(checked_at(rows, now), now) == checked_at(rows, now),
        fired_at(checked_at(rows, now), now).len() == 0,
{
    let c = checked_at(rows, now);
    assert(checked_at(c, now) =~= c);
    assert forall|i: int| 0 <= i < c.len() implies !due_at(now)(#[trigger] c[i]) by {}
    c.lemma_all_neg_filter_empty(due_at(now));
}

/// A timer can start only when none runs, so starting keeps at most one
/// running: with no running entry in `rows`, pushing a running entry
/// leaves exactly that one running.
pub proof fn law_start_keeps_one_timer(rows: Seq<TimeEntry>, e: TimeEntry)
    requires
        !has_running(rows),
    ensures
        single_running(rows.push(e)),
        is_running(e) ==> has_running(rows.push(e)) && first_running(rows.push(e)) == rows.len(),
{
    let w = rows.push(e);
    assert forall|i: int, j: int|
        0 <= i < w.len() && 0 <= j < w.len() && is_running(#[trigger] w[i]) && is_running(
            #[trigger] w[j],
        ) implies i == j by {
        if i < rows.len() {
            assert(w[i] == rows[i]);
        }
        if j < rows.len() {
            assert(w[j] == rows[j]);
        }
    }
    if is_running(e) {
        assert(is_running(w[rows.len() as int]));
        let k = first_running(w);
        assert(0 <= k < w.len() && is_running(w[k]));
        if k < rows.len() {
            assert(w[k] == rows[k]);
        }
    }
}

/// Stopping the running timer when at most one runs leaves none running.
pub proof fn law_stop_leaves_none_running(rows: Seq<TimeEntry>, now: i64)
    requires
        single_running(rows),
        has_running(rows),
    ensures
        !has_running(
            rows.update(
                first_running(rows),
                TimeEntry { ended_at: Some(now), ..rows[first_running(rows)] },
            ),
        ),
{
    let k = first_running(rows);
    let w = rows.update(k, TimeEntry { ended_at: Some(now), ..rows[k] });
    assert forall|i: int| 0 <= i < w.len() implies !is_running(#[trigger] w[i]) by {
        if i != k {
            assert(w[i] == rows[i]);
            if is_running(rows[i]) {
                assert(is_running(rows[k]));
            }
        }
    }
}

/// Archiving leaves whether each entry runs as it was, so the cascade
/// keeps at most one timer running.
pub proof fn law_cascade_keeps_one_timer(rows: Seq<TimeEntry>, pid: crate::domain::ProjectId, now: i64)
    requires
        single_running(rows),
    ensures
        single_running(cascade(rows, pid, now)),
        has_running(cascade(rows, pid, now)) == has_running(rows),
{
    let c = cascade(rows, pid, now);
    assert forall|i: int| 0 <= i < rows.len() implies is_running(#[trigger] c[i]) == is_running(rows[i]) by {}
    if has_running(rows) {
        let k = choose|k: int| 0 <= k < rows.len() && is_running(#[trigger] rows[k]);
        assert(is_running(c[k]));
    }
    if has_running(c) {
        let k = choose|k: int| 0 <= k < c.len() && is_running(#[trigger] c[k]);
        assert(is_running(rows[k]));
    }
}

/// Keeping only some elements of a sequence without repeats leaves a
/// sequence without repeats.
pub proof fn law_filter_keeps_distinct<A>(v: Seq<A>, p: spec_fn(A) -> bool)
    requires
        v.no_duplicates(),
    ensures
        v.filter(p).no_duplicates(),
    decreases v.len(),
{
    reveal(Seq::filter);
    if v.len() > 0 {
        let u = v.drop_last();
        assert(u.no_duplicates());
        law_filter_keeps_distinct(u, p);
        if p(v.last()) {
            let f = u.filter(p);
            if f.contains(v.last()) {
                u.lemma_filter_contains_rev(p, v.last());
                let j = choose|j: int| 0 <= j < u.len() && u[j] == v.last();
                assert(v[j] == v[v.len() - 1]);
            }
            let g = f.push(v.last());
            assert forall|a: int, b: int| 0 <= a < g.len() && 0 <= b < g.len() && a != b implies g[a] != g[b] by {
                if a == f.len() {
                    assert(!f.contains(v.last()));
                    assert(f[b] == g[b]);
                } else if b == f.len() {
                    assert(!f.contains(v.last()));
                    assert(f[a] == g[a]);
                } else {
                    assert(f[a] == g[a] && f[b] == g[b]);
                }
            }
        }
    }
}

/// Syncing a note's links leaves no link from the note to itself, and at
/// most one link from it to any other note.
pub proof fn law_synced_links_distinct(source: Seq<char>, content: Seq<char>)
    ensures
        forall|i: int| 0 <= i < wanted_links(source, content).len() ==> (#[trigger] wanted_links(source, content)[i]).0
            == source && wanted_links(source, content)[i].1 != source,
        forall|a: int, b: int|
            0 <= a < b < wanted_links(source, content).len() ==> (#[trigger] wanted_links(source, content)[a]).1
                != (#[trigger] wanted_links(source, content)[b]).1,
{
    let d = link_slugs(content);
    lemma_first_occurrences_distinct(crate::domain::links::links_from(content, 0));
    assert(d.no_duplicates()) by {
        assert forall|a: int, b: int| 0 <= a < d.len() && 0 <= b < d.len() && a != b implies d[a] != d[b] by {
            if a < b {
                assert(first_occurrences(crate::domain::links::links_from(content, 0))[a] != first_occurrences(
                    crate::domain::links::links_from(content, 0),
                )[b]);
            } else {
                assert(first_occurrences(crate::domain::links::links_from(content, 0))[b] != first_occurrences(
                    crate::domain::links::links_from(content, 0),
                )[a]);
            }
        }
    }
    let f = d.filter(other_than(source));
    law_filter_keeps_distinct(d, other_than(source));
    assert forall|i: int| 0 <= i < f.len() implies other_than(source)(#[trigger] f[i]) by {
        d.lemma_filter_pred(other_than(source), i);
    }
}

/// Distinct task statuses have distinct names, so a status read back from
/// its name is the status written.
pub proof fn law_task_status_names_distinct(a: TaskStatus, b: TaskStatus)
    ensures
        task_status_name(a) == task_status_name(b) ==> a == b,
{
    reveal_strlit("todo");
    reveal_strlit("in_progress");
    reveal_strlit("done");
    reveal_strlit("cancelled");
    if a != b {
        assert(task_status_name(a)[0] != task_status_name(b)[0]);
    }
}

/// Distinct task priorities have distinct names.
pub proof fn law_task_priority_names_distinct(a: TaskPriority, b: TaskPriority)
    ensures
        task_priority_name(a) == task_priority_name(b) ==> a == b,
{
    reveal_strlit("low");
    reveal_strlit("medium");
    reveal_strlit("high");
    reveal_strlit("urgent");
    if a != b {
        assert(task_priority_name(a)[0] != task_priority_name(b)[0]);
    }
}

/// Distinct project statuses have distinct names.
pub proof fn law_project_status_names_distinct(a: ProjectStatus, b: ProjectStatus)
    ensures
        project_status_name(a) == project_status_name(b) ==> a == b,
{
    reveal_strlit("active");
    reveal_strlit("paused");
    reveal_strlit("completed");
    if a != b {
        assert(project_status_name(a)[0] != project_status_name(b)[0]);
    }
}

/// A read gives back what a write wrote: once a row with a fresh slug is
/// added, looking its slug up finds that row, and every other slug finds
/// what it found before.
pub proof fn law_added_row_is_found<T: Record>(rows: Seq<T>, x: T, other: Seq<char>)
    requires
        keys_distinct(rows),
        !has_key(rows, x.key()),
    ensures
        keys_distinct(rows.push(x)),
        lookup(rows.push(x), x.key()) == Some(x),
        other != x.key() ==> lookup(rows.push(x), other) == lookup(rows, other),
{
    let w = rows.push(x);
    assert forall|i: int, j: int| 0 <= i < w.len() && 0 <= j < w.len() && i != j implies #[trigger] w[i].key()
        != #[trigger] w[j].key() by {
        if i < rows.len() && j < rows.len() {
            assert(w[i] == rows[i] && w[j] == rows[j]);
        } else if i < rows.len() {
            assert(w[i] == rows[i]);
        } else {
            assert(w[j] == rows[j]);
        }
    }
    lemma_key_index(w, x.key(), rows.len() as int);
    if other != x.key() {
        if has_key(rows, other) {
            let k = choose|k: int| 0 <= k < rows.len() && #[trigger] rows[k].key() == other;
            lemma_key_index(rows, other, k);
            assert(w[k] == rows[k]);
            lemma_key_index(w, other, k);
        } else {
            assert forall|k: int| 0 <= k < w.len() implies #[trigger] w[k].key() != other by {
                if k < rows.len() {
                    assert(w[k] == rows[k]);
                }
            }
        }
    }
}

/// A read gives back what an update wrote: replacing the row at `i` by one
/// with the same slug, looking that slug up finds the new row.
pub proof fn law_updated_row_is_found<T: Record>(rows: Seq<T>, i: int, x: T)
    requires
        keys_distinct(rows),
        0 <= i < rows.len(),
        x.key() == rows[i].key(),
    ensures
        keys_distinct(rows.update(i, x)),
        lookup(rows.update(i, x), x.key()) == Some(x),
{
    let w = rows.update(i, x);
    assert forall|a: int, b: int| 0 <= a < w.len() && 0 <= b < w.len() && a != b implies #[trigger] w[a].key()
        != #[trigger] w[b].key() by {
        assert(w[a].key() == rows[a].key());
        assert(w[b].key() == rows[b].key());
    }
    lemma_key_index(w, x.key(), i);
}

/// The link pairs whose source is not `s`.
pub open spec fn pair_not_from(s: Seq<char>) -> spec_fn((Seq<char>, Seq<char>)) -> bool {
    |p: (Seq<char>, Seq<char>)| p.0 != s
}

proof fn lemma_filter_pairs(links: Seq<Link>, s: Seq<char>)
    ensures
        links.filter(not_from(s)).map_values(|l: Link| link_pair(l)) == links.map_values(|l: Link| link_pair(l))
            .filter(pair_not_from(s)),
    decreases links.len(),
{
    reveal(Seq::filter);
    if links.len() > 0 {
        let init = links.drop_last();
        lemma_filter_pairs(init, s);
        assert(links.map_values(|l: Link| link_pair(l)).drop_last() =~= init.map_values(|l: Link| link_pair(l)));
        if not_from(s)(links.last()) {
            assert(links.filter(not_from(s)).map_values(|l: Link| link_pair(l)) =~= init.filter(not_from(s)).map_values(
                |l: Link| link_pair(l),
            ).push(link_pair(links.last())));
        }
    } else {
        assert(links.filter(not_from(s)).map_values(|l: Link| link_pair(l)) =~= Seq::empty());
        assert(links.map_values(|l: Link| link_pair(l)).filter(pair_not_from(s)) =~= Seq::empty());
    }
}

proof fn lemma_wanted_from(source: Seq<char>, content: Seq<char>)
    ensures
        wanted_links(source, content).filter(pair_not_from(source)) == Seq::<(Seq<char>, Seq<char>)>::empty(),
{
    let w = wanted_links(source, content);
    if w.filter(pair_not_from(source)).len() > 0 {
        let x = w.filter(pair_not_from(source))[0];
        w.filter_lemma(pair_not_from(source));
        assert(w.filter(pair_not_from(source)).contains(x));
        w.lemma_filter_contains_rev(pair_not_from(source), x);
        let k = choose|k: int| 0 <= k < w.len() && w[k] == x;
        assert(w[k].0 == source);
    }
    assert(w.filter(pair_not_from(source)) =~= Seq::<(Seq<char>, Seq<char>)>::empty());
}

/// Syncing a note's links twice leaves what the second sync alone would
/// leave: the links from `source` are those `second` calls for, and every
/// link from another note is untouched. Syncing again with the same content
/// (`first == second`) leaves the same links.
pub proof fn law_second_sync_replaces_first(
    links: Seq<Link>,
    after_first: Seq<Link>,
    source: Seq<char>,
    first: Seq<char>,
    second: Seq<char>,
)
    requires
        after_first.map_values(|l: Link| link_pair(l)) == synced_pairs(links, source, first),
    ensures
        synced_pairs(after_first, source, second) == synced_pairs(links, source, second),
{
    let kept = links.filter(not_from(source)).map_values(|l: Link| link_pair(l));
    lemma_filter_pairs(after_first, source);
    lemma_filter_pairs(links, source);
    Seq::filter_distributes_over_add(kept, wanted_links(source, first), pair_not_from(source));
    lemma_wanted_from(source, first);
    assert(kept.filter(pair_not_from(source)) =~= kept) by {
        lemma_filter_pairs(links.filter(not_from(source)), source);
        assert(links.filter(not_from(source)).filter(not_from(source)) =~= links.filter(not_from(source))) by {
            links.filter(not_from(source)).lemma_filter_len(not_from(source));
            reveal(Seq::filter);
            lemma_filter_idem(links, not_from(source));
        }
    }
    assert(after_first.filter(not_from(source)).map_values(|l: Link| link_pair(l)) =~= kept);
}

proof fn lemma_filter_idem<A>(s: Seq<A>, p: spec_fn(A) -> bool)
    ensures
        s.filter(p).filter(p) == s.filter(p),
    decreases s.len(),
{
    reveal(Seq::filter);
    if s.len() > 0 {
        lemma_filter_idem(s.drop_last(), p);
        if p(s.last()) {
            assert(s.filter(p).filter(p) =~= s.drop_last().filter(p).filter(p).push(s.last())) by {
                assert(s.filter(p).drop_last() =~= s.drop_last().filter(p));
            }
        }
    }
}

} // verus!
