//! Shell completion: the shells a script can be printed for, and the
//! dynamic candidates (`slug` and a hint) that `scribe __complete <entity>`
//! prints, ordered by slug.

use vstd::prelude::*;
use crate::clock::{utc_rfc3339, utc_rfc3339_of};
use crate::domain::{CaptureItem, Project, Reminder, Task, TimeEntry, Todo};
use crate::error::ScribeError;
use crate::store::table::{has_ident, Record};
use crate::store::Store;
use crate::text::{chars_of, lowercase, push_str, str_eq, string_of, to_lowercase};

verus! {

/// Shells a completion script can be printed for.
#[derive(Debug, Clone, Copy, PartialEq, Eq, Structural)]
pub enum CompletionShell {
    /// Bourne Again Shell.
    Bash,
    /// Z shell.
    Zsh,
    /// Friendly interactive shell.
    Fish,
    /// Elvish.
    Elvish,
    /// PowerShell.
    Powershell,
}

/// Entities whose slugs can be completed.
#[derive(Debug, Clone, Copy, PartialEq, Eq, Structural)]
pub enum CompleteEntity {
    /// Unarchived projects, hinted by name.
    Projects,
    /// Unarchived tasks, hinted by title.
    Tasks,
    /// Unarchived todos not done, hinted by title.
    Todos,
    /// Unarchived reminders not fired, hinted by message or time.
    Reminders,
    /// Unprocessed capture items, hinted by their body's first 60 characters.
    Captures,
    /// Unarchived time entries, hinted by project slug and start time.
    Entries,
}

/// The entity a name denotes, case ignored.
pub open spec fn entity_named(s: Seq<char>) -> Result<CompleteEntity, Seq<char>> {
    let l = lowercase(s);
    if l == "projects"@ { Ok(CompleteEntity::Projects) }
    else if l == "tasks"@ { Ok(CompleteEntity::Tasks) }
    else if l == "todos"@ { Ok(CompleteEntity::Todos) }
    else if l == "reminders"@ { Ok(CompleteEntity::Reminders) }
    else if l == "captures"@ { Ok(CompleteEntity::Captures) }
    else if l == "entries"@ { Ok(CompleteEntity::Entries) }
    else {
        Err("unknown entity '"@ + s + "'; valid values: projects, tasks, todos, reminders, captures, entries"@)
    }
}

/// Reads an entity name, case ignored.
pub fn parse_entity(s: &str) -> (r: Result<CompleteEntity, ScribeError>)
    ensures
        match r {
            Ok(c) => entity_named(s@) == Ok::<CompleteEntity, Seq<char>>(c),
            Err(e) => e is Input && entity_named(s@) == Err::<CompleteEntity, Seq<char>>(e->message@),
        },
{
    let l = to_lowercase(s);
    let t = l.as_str();
    if str_eq(t, "projects") { Ok(CompleteEntity::Projects) }
    else if str_eq(t, "tasks") { Ok(CompleteEntity::Tasks) }
    else if str_eq(t, "todos") { Ok(CompleteEntity::Todos) }
    else if str_eq(t, "reminders") { Ok(CompleteEntity::Reminders) }
    else if str_eq(t, "captures") { Ok(CompleteEntity::Captures) }
    else if str_eq(t, "entries") { Ok(CompleteEntity::Entries) }
    else {
        let mut out: Vec<char> = Vec::new();
        push_str(&mut out, "unknown entity '");
        push_str(&mut out, s);
        push_str(&mut out, "'; valid values: projects, tasks, todos, reminders, captures, entries");
        Err(ScribeError::Input { message: string_of(&out) })
    }
}

/// `a` sorts strictly before `b`, character by character (the order of
/// code points, which is also the order of UTF-8 bytes).
pub open spec fn text_lt(a: Seq<char>, b: Seq<char>) -> bool
    decreases a.len(),
{
    if a.len() == 0 {
        b.len() > 0
    } else if b.len() == 0 {
        false
    } else if a[0] != b[0] {
        (a[0] as u32) < (b[0] as u32)
    } else {
        text_lt(a.skip(1), b.skip(1))
    }
}

/// No text sorts before itself.
pub proof fn lemma_text_lt_irreflexive(a: Seq<char>)
    ensures
        !text_lt(a, a),
    decreases a.len(),
{
    if a.len() > 0 {
        lemma_text_lt_irreflexive(a.skip(1));
    }
}

/// Sorting before is transitive.
pub proof fn lemma_text_lt_transitive(a: Seq<char>, b: Seq<char>, c: Seq<char>)
    requires
        text_lt(a, b),
        text_lt(b, c),
    ensures
        text_lt(a, c),
    decreases a.len(),
{
    if a.len() > 0 && b.len() > 0 && c.len() > 0 && a[0] == b[0] && b[0] == c[0] {
        lemma_text_lt_transitive(a.skip(1), b.skip(1), c.skip(1));
    }
}

/// Candidates are in order of their slugs.
pub open spec fn sorted_by_slug(v: Seq<(Seq<char>, Seq<char>)>) -> bool {
    forall|i: int, j: int| 0 <= i < j < v.len() ==> !text_lt(#[trigger] v[j].0, #[trigger] v[i].0)
}

/// Where `x` goes in `v`: before the first candidate whose slug sorts after
/// its own, or at the end.
pub open spec fn insert_at(v: Seq<(Seq<char>, Seq<char>)>, x: (Seq<char>, Seq<char>), k: int) -> int
    decreases v.len() - k,
{
    if k < 0 || k >= v.len() {
        v.len() as int
    } else if text_lt(x.0, v[k].0) {
        k
    } else {
        insert_at(v, x, k + 1)
    }
}

/// `v` in order of slugs, as inserting each candidate in turn leaves it.
pub open spec fn sort_by_slug(v: Seq<(Seq<char>, Seq<char>)>) -> Seq<(Seq<char>, Seq<char>)>
    decreases v.len(),
{
    if v.len() == 0 {
        v
    } else {
        let s = sort_by_slug(v.drop_last());
        proof {
            lemma_insert_at(s, v.last(), 0);
        }
        s.insert(insert_at(s, v.last(), 0), v.last())
    }
}

/// The insertion point lies in the sequence, every candidate before it
/// does not sort after the new one, and the one at it does.
pub proof fn lemma_insert_at(v: Seq<(Seq<char>, Seq<char>)>, x: (Seq<char>, Seq<char>), k: int)
    requires
        0 <= k <= v.len(),
    ensures
        k <= insert_at(v, x, k) <= v.len(),
        forall|m: int| k <= m < insert_at(v, x, k) ==> !text_lt(x.0, #[trigger] v[m].0),
        insert_at(v, x, k) < v.len() ==> text_lt(x.0, v[insert_at(v, x, k)].0),
    decreases v.len() - k,
{
    if k < v.len() && !text_lt(x.0, v[k].0) {
        lemma_insert_at(v, x, k + 1);
    }
}

/// Inserting at the insertion point keeps candidates in order.
pub proof fn lemma_insert_sorted(v: Seq<(Seq<char>, Seq<char>)>, x: (Seq<char>, Seq<char>))
    requires
        sorted_by_slug(v),
    ensures
        sorted_by_slug(v.insert(insert_at(v, x, 0), x)),
{
    lemma_insert_at(v, x, 0);
    let p = insert_at(v, x, 0);
    let w = v.insert(p, x);
    assert forall|i: int, j: int| 0 <= i < j < w.len() implies !text_lt(#[trigger] w[j].0, #[trigger] w[i].0) by {
        if j < p {
            assert(w[i] == v[i] && w[j] == v[j]);
        } else if j == p {
            assert(w[j] == x && w[i] == v[i]);
        } else if i > p {
            assert(w[i] == v[i - 1] && w[j] == v[j - 1]);
        } else if i == p {
            assert(w[i] == x && w[j] == v[j - 1]);
            assert(text_lt(x.0, v[p].0));
            if text_lt(v[j - 1].0, x.0) {
                lemma_text_lt_transitive(v[j - 1].0, x.0, v[p].0);
                if j - 1 == p {
                    lemma_text_lt_irreflexive(v[p].0);
                }
            }
        } else {
            assert(w[i] == v[i] && w[j] == v[j - 1]);
        }
    }
}

/// Sorting leaves candidates in order of their slugs.
pub proof fn lemma_sort_by_slug_sorted(v: Seq<(Seq<char>, Seq<char>)>)
    ensures
        sorted_by_slug(sort_by_slug(v)),
        sort_by_slug(v).len() == v.len(),
    decreases v.len(),
{
    if v.len() > 0 {
        lemma_sort_by_slug_sorted(v.drop_last());
        lemma_insert_sorted(sort_by_slug(v.drop_last()), v.last());
        lemma_insert_at(sort_by_slug(v.drop_last()), v.last(), 0);
    }
}

/// Whether `a` sorts strictly before `b`.
fn text_less(a: &str, b: &str) -> (r: bool)
    ensures
        r == text_lt(a@, b@),
{
    let x = chars_of(a);
    let y = chars_of(b);
    let mut i: usize = 0;
    proof {
        assert(x@.skip(0) =~= x@);
        assert(y@.skip(0) =~= y@);
    }
    while i < x.len() && i < y.len() && x[i] == y[i]
        invariant
            0 <= i <= x.len(),
            i <= y.len(),
            text_lt(a@, b@) == text_lt(x@.skip(i as int), y@.skip(i as int)),
            x@ == a@,
            y@ == b@,
        decreases x.len() - i,
    {
        proof {
            assert(x@.skip(i as int).skip(1) =~= x@.skip(i + 1));
            assert(y@.skip(i as int).skip(1) =~= y@.skip(i + 1));
        }
        i = i + 1;
    }
    if i == x.len() {
        i < y.len()
    } else if i == y.len() {
        false
    } else {
        (x[i] as u32) < (y[i] as u32)
    }
}

/// The view of candidate strings.
pub open spec fn pair_view(p: (String, String)) -> (Seq<char>, Seq<char>) {
    (p.0@, p.1@)
}

/// Sorts candidates by slug, as [`sort_by_slug`] describes.
pub fn sort_candidates(v: Vec<(String, String)>) -> (r: Vec<(String, String)>)
    ensures
        r@.map_values(|p: (String, String)| pair_view(p)) == sort_by_slug(v@.map_values(|p: (String, String)| pair_view(p))),
{
    let ghost vv = v@.map_values(|p: (String, String)| pair_view(p));
    let mut out: Vec<(String, String)> = Vec::new();
    let mut rest = v;
    let mut taken: Vec<(String, String)> = Vec::new();
    let n = rest.len();
    let mut i: usize = 0;
    while i < n
        invariant
            0 <= i <= n,
            n == vv.len(),
            rest@.len() == n,
            vv == rest@.map_values(|p: (String, String)| pair_view(p)),
            out@.map_values(|p: (String, String)| pair_view(p)) == sort_by_slug(vv.take(i as int)),
        decreases n - i,
    {
        let key = rest[i].0.clone();
        let hint = rest[i].1.clone();
        let ghost x = (key@, hint@);
        let ghost s = out@.map_values(|p: (String, String)| pair_view(p));
        assert(vv[i as int] == x);
        let mut k: usize = 0;
        while k < out.len() && !text_less(key.as_str(), out[k].0.as_str())
            invariant
                0 <= k <= out@.len(),
                s == out@.map_values(|p: (String, String)| pair_view(p)),
                x == (key@, hint@),
                insert_at(s, x, 0) == insert_at(s, x, k as int),
            decreases out@.len() - k,
        {
            k = k + 1;
        }
        proof {
            assert(insert_at(s, x, k as int) == k);
            assert(vv.take(i + 1).drop_last() =~= vv.take(i as int));
            assert(vv.take(i + 1).last() == x);
        }
        out.insert(k, (key, hint));
        proof {
            assert(out@.map_values(|p: (String, String)| pair_view(p)) =~= s.insert(k as int, x));
        }
        i = i + 1;
    }
    proof {
        assert(vv.take(n as int) =~= vv);
    }
    out
}

/// One step of filtering then mapping a prefix: the next row is appended,
/// mapped, exactly when it is kept.
pub proof fn lemma_filter_map_step<T, U>(s: Seq<T>, p: spec_fn(T) -> bool, f: spec_fn(T) -> U, i: int)
    requires
        0 <= i < s.len(),
    ensures
        s.take(i + 1).filter(p).map_values(f) == (if p(s[i]) {
            s.take(i).filter(p).map_values(f).push(f(s[i]))
        } else {
            s.take(i).filter(p).map_values(f)
        }),
{
    crate::store::table::lemma_filter_step(s, p, i);
    if p(s[i]) {
        assert(s.take(i).filter(p).push(s[i]).map_values(f) =~= s.take(i).filter(p).map_values(f).push(
            f(s[i]),
        ));
    }
}

/// Pushing a pair pushes its view.
proof fn lemma_push_view(v: Seq<(String, String)>, x: (String, String))
    ensures
        v.push(x).map_values(|p: (String, String)| pair_view(p)) == v.map_values(
            |p: (String, String)| pair_view(p),
        ).push(pair_view(x)),
{
    assert(v.push(x).map_values(|p: (String, String)| pair_view(p)) =~= v.map_values(
        |p: (String, String)| pair_view(p),
    ).push(pair_view(x)));
}

/// The text of an optional time: the RFC 3339 form, or nothing where the
/// time is out of range.
pub open spec fn time_text(ts: i64) -> Seq<char> {
    match utc_rfc3339(ts) {
        Some(t) => t,
        None => Seq::empty(),
    }
}

/// `utc_rfc3339_of`, with an empty text where the time is out of range.
fn time_string(ts: i64) -> (r: String)
    ensures
        r@ == time_text(ts),
{
    match utc_rfc3339_of(ts) {
        Some(t) => t,
        None => String::new(),
    }
}

/// The position of the row with id `id` (meaningful when there is one).
pub open spec fn ident_index<T: Record>(rows: Seq<T>, id: i64) -> int {
    choose|i: int| 0 <= i < rows.len() && #[trigger] rows[i].ident() == id
}

/// Candidates kept for completing `entity`, each as its slug and hint, in
/// the order of the rows.
pub open spec fn candidates(store: Store, entity: CompleteEntity) -> Seq<(Seq<char>, Seq<char>)> {
    match entity {
        CompleteEntity::Projects => store.projects@.filter(|p: Project| p.archived_at is None).map_values(
            |p: Project| (p.slug@, p.name@),
        ),
        CompleteEntity::Tasks => store.tasks@.filter(|t: Task| t.archived_at is None).map_values(
            |t: Task| (t.slug@, t.title@),
        ),
        CompleteEntity::Todos => store.todos@.filter(|t: Todo| t.archived_at is None && !t.done).map_values(
            |t: Todo| (t.slug@, t.title@),
        ),
        CompleteEntity::Reminders => store.reminders@.filter(
            |r: Reminder| r.archived_at is None && !r.fired,
        ).map_values(
            |r: Reminder|
                (
                    r.slug@,
                    match r.message {
                        Some(m) => m@,
                        None => time_text(r.remind_at),
                    },
                ),
        ),
        CompleteEntity::Captures => store.captures@.filter(|c: CaptureItem| !c.processed).map_values(
            |c: CaptureItem|
                (c.slug@, c.body@.take(if 60 < c.body@.len() { 60 } else { c.body@.len() as int })),
        ),
        CompleteEntity::Entries => store.entries@.filter(
            |e: TimeEntry| e.archived_at is None && has_ident(store.projects@, e.project_id.0),
        ).map_values(
            |e: TimeEntry|
                (
                    e.slug@,
                    store.projects@[ident_index(store.projects@, e.project_id.0)].slug@ + " "@
                        + time_text(e.started_at),
                ),
        ),
    }
}

/// The first `n` characters of `s`.
pub fn first_chars(s: &str, n: usize) -> (r: String)
    ensures
        r@ == s@.take(if n < s@.len() { n as int } else { s@.len() as int }),
{
    let cs = chars_of(s);
    let m = if n < cs.len() { n } else { cs.len() };
    let mut out: Vec<char> = Vec::new();
    let mut i: usize = 0;
    while i < m
        invariant
            0 <= i <= m,
            m <= cs.len(),
            cs@ == s@,
            out@ == cs@.take(i as int),
        decreases m - i,
    {
        out.push(cs[i]);
        i = i + 1;
        assert(cs@.take(i as int) =~= cs@.take(i - 1).push(cs@[i - 1]));
    }
    string_of(&out)
}

/// Unsorted candidates for `entity`, in the order of the rows.
fn collect_candidates(store: &Store, entity: CompleteEntity) -> (r: Vec<(String, String)>)
    requires
        store.wf(),
    ensures
        r@.map_values(|p: (String, String)| pair_view(p)) == candidates(*store, entity),
{
    let ghost want = candidates(*store, entity);
    let mut v: Vec<(String, String)> = Vec::new();
    match entity {
        CompleteEntity::Projects => {
            let rows = store.projects.rows();
            let ghost p = |p: Project| p.archived_at is None;
            let ghost f = |p: Project| (p.slug@, p.name@);
            let mut i: usize = 0;
            while i < rows.len()
                invariant
                    p == (|p: Project| p.archived_at is None),
                    f == (|p: Project| (p.slug@, p.name@)),
                    0 <= i <= rows@.len(),
                    rows@ == store.projects@,
                    v@.map_values(|p: (String, String)| pair_view(p)) == rows@.take(i as int).filter(p).map_values(f),
                decreases rows@.len() - i,
            {
                proof {
                    lemma_filter_map_step(rows@, p, f, i as int);
                }
                if rows[i].archived_at.is_none() {
                    let x = (rows[i].slug.clone(), rows[i].name.clone());
                    proof {
                        lemma_push_view(v@, x);
                    }
                    v.push(x);
                }
                i = i + 1;
            }
            proof {
                assert(rows@.take(rows@.len() as int) =~= rows@);
            }
        },
        CompleteEntity::Tasks => {
            let rows = store.tasks.rows();
            let ghost p = |t: Task| t.archived_at is None;
            let ghost f = |t: Task| (t.slug@, t.title@);
            let mut i: usize = 0;
            while i < rows.len()
                invariant
                    p == (|t: Task| t.archived_at is None),
                    f == (|t: Task| (t.slug@, t.title@)),
                    0 <= i <= rows@.len(),
                    rows@ == store.tasks@,
                    v@.map_values(|p: (String, String)| pair_view(p)) == rows@.take(i as int).filter(p).map_values(f),
                decreases rows@.len() - i,
            {
                proof {
                    lemma_filter_map_step(rows@, p, f, i as int);
                }
                if rows[i].archived_at.is_none() {
                    let x = (rows[i].slug.clone(), rows[i].title.clone());
                    proof {
                        lemma_push_view(v@, x);
                    }
                    v.push(x);
                }
                i = i + 1;
            }
            proof {
                assert(rows@.take(rows@.len() as int) =~= rows@);
            }
        },
        CompleteEntity::Todos => {
            let rows = store.todos.rows();
            let ghost p = |t: Todo| t.archived_at is None && !t.done;
            let ghost f = |t: Todo| (t.slug@, t.title@);
            let mut i: usize = 0;
            while i < rows.len()
                invariant
                    p == (|t: Todo| t.archived_at is None && !t.done),
                    f == (|t: Todo| (t.slug@, t.title@)),
                    0 <= i <= rows@.len(),
                    rows@ == store.todos@,
                    v@.map_values(|p: (String, String)| pair_view(p)) == rows@.take(i as int).filter(p).map_values(f),
                decreases rows@.len() - i,
            {
                proof {
                    lemma_filter_map_step(rows@, p, f, i as int);
                }
                if rows[i].archived_at.is_none() && !rows[i].done {
                    let x = (rows[i].slug.clone(), rows[i].title.clone());
                    proof {
                        lemma_push_view(v@, x);
                    }
                    v.push(x);
                }
                i = i + 1;
            }
            proof {
                assert(rows@.take(rows@.len() as int) =~= rows@);
            }
        },
        CompleteEntity::Reminders => {
            let rows = store.reminders.rows();
            let ghost p = |r: Reminder| r.archived_at is None && !r.fired;
            let ghost f = |r: Reminder|
                (
                    r.slug@,
                    match r.message {
                        Some(m) => m@,
                        None => time_text(r.remind_at),
                    },
                );
            let mut i: usize = 0;
            while i < rows.len()
                invariant
                    p == (|r: Reminder| r.archived_at is None && !r.fired),
                    f == (|r: Reminder|
                (
                    r.slug@,
                    match r.message {
                        Some(m) => m@,
                        None => time_text(r.remind_at),
                    },
                )),
                    0 <= i <= rows@.len(),
                    rows@ == store.reminders@,
                    v@.map_values(|p: (String, String)| pair_view(p)) == rows@.take(i as int).filter(p).map_values(f),
                decreases rows@.len() - i,
            {
                proof {
                    lemma_filter_map_step(rows@, p, f, i as int);
                }
                if rows[i].archived_at.is_none() && !rows[i].fired {
                    let hint = match &rows[i].message {
                        Some(m) => m.clone(),
                        None => time_string(rows[i].remind_at),
                    };
                    let x = (rows[i].slug.clone(), hint);
                    proof {
                        lemma_push_view(v@, x);
                    }
                    v.push(x);
                }
                i = i + 1;
            }
            proof {
                assert(rows@.take(rows@.len() as int) =~= rows@);
            }
        },
        CompleteEntity::Captures => {
            let rows = store.captures.rows();
            let ghost p = |c: CaptureItem| !c.processed;
            let ghost f = |c: CaptureItem|
                (c.slug@, c.body@.take(if 60 < c.body@.len() { 60 } else { c.body@.len() as int }));
            let mut i: usize = 0;
            while i < rows.len()
                invariant
                    p == (|c: CaptureItem| !c.processed),
                    f == (|c: CaptureItem|
                (c.slug@, c.body@.take(if 60 < c.body@.len() { 60 } else { c.body@.len() as int }))),
                    0 <= i <= rows@.len(),
                    rows@ == store.captures@,
                    v@.map_values(|p: (String, String)| pair_view(p)) == rows@.take(i as int).filter(p).map_values(f),
                decreases rows@.len() - i,
            {
                proof {
                    lemma_filter_map_step(rows@, p, f, i as int);
                }
                if !rows[i].processed {
                    let x = (rows[i].slug.clone(), first_chars(rows[i].body.as_str(), 60));
                    proof {
                        lemma_push_view(v@, x);
                    }
                    v.push(x);
                }
                i = i + 1;
            }
            proof {
                assert(rows@.take(rows@.len() as int) =~= rows@);
            }
        },
        CompleteEntity::Entries => {
            let rows = store.entries.rows();
            let projects = store.projects.rows();
            let ghost p = |e: TimeEntry| e.archived_at is None && has_ident(store.projects@, e.project_id.0);
            let ghost f = |e: TimeEntry|
                (
                    e.slug@,
                    store.projects@[ident_index(store.projects@, e.project_id.0)].slug@ + " "@
                        + time_text(e.started_at),
                );
            let mut i: usize = 0;
            while i < rows.len()
                invariant
                    p == (|e: TimeEntry| e.archived_at is None && has_ident(store.projects@, e.project_id.0)),
                    f == (|e: TimeEntry|
                (
                    e.slug@,
                    store.projects@[ident_index(store.projects@, e.project_id.0)].slug@ + " "@
                        + time_text(e.started_at),
                )),
                    0 <= i <= rows@.len(),
                    rows@ == store.entries@,
                    projects@ == store.projects@,
                    store.wf(),
                    v@.map_values(|p: (String, String)| pair_view(p)) == rows@.take(i as int).filter(p).map_values(f),
                decreases rows@.len() - i,
            {
                proof {
                    lemma_filter_map_step(rows@, p, f, i as int);
                }
                if rows[i].archived_at.is_none() {
                    if let Some(k) = store.projects.find_id(rows[i].project_id.0) {
                        proof {
                            let id = rows@[i as int].project_id.0;
                            let j = ident_index(store.projects@, id);
                            assert(store.projects@[k as int].ident() == id);
                            assert(0 <= j < store.projects@.len() && store.projects@[j].ident() == id);
                            assert(j == k);
                        }
                        let mut hint: Vec<char> = Vec::new();
                        push_str(&mut hint, projects[k].slug.as_str());
                        hint.push(' ');
                        let started = time_string(rows[i].started_at);
                        push_str(&mut hint, started.as_str());
                        let x = (rows[i].slug.clone(), string_of(&hint));
                        proof {
                            assert(hint@ =~= store.projects@[k as int].slug@ + " "@ + time_text(
                                rows@[i as int].started_at,
                            )) by {
                                reveal_strlit(" ");
                            }
                            lemma_push_view(v@, x);
                        }
                        v.push(x);
                    }
                }
                i = i + 1;
            }
            proof {
                assert(rows@.take(rows@.len() as int) =~= rows@);
            }
        },
    }
    v
}

/// Completion candidates for `entity`: `slug` and hint pairs, by slug.
pub fn run_complete(store: &Store, entity: CompleteEntity) -> (r: Vec<(String, String)>)
    requires
        store.wf(),
    ensures
        r@.map_values(|p: (String, String)| pair_view(p)) == sort_by_slug(candidates(*store, entity)),
        sorted_by_slug(r@.map_values(|p: (String, String)| pair_view(p))),
{
    let v = collect_candidates(store, entity);
    proof {
        lemma_sort_by_slug_sorted(candidates(*store, entity));
    }
    sort_candidates(v)
}

/// The code of a character with ASCII capitals folded to small letters.
pub open spec fn fold_ascii(c: char) -> u32 {
    if 'A' <= c <= 'Z' {
        ((c as u32) + 32) as u32
    } else {
        c as u32
    }
}

/// `slug` begins with `prefix`, ASCII letters compared without case.
pub open spec fn begins_folded(slug: Seq<char>, prefix: Seq<char>) -> bool {
    &&& prefix.len() <= slug.len()
    &&& forall|i: int| 0 <= i < prefix.len() ==> fold_ascii(#[trigger] slug[i]) == fold_ascii(prefix[i])
}

/// The candidates whose slug begins with `prefix`.
pub open spec fn with_prefix(prefix: Seq<char>) -> spec_fn((Seq<char>, Seq<char>)) -> bool {
    |p: (Seq<char>, Seq<char>)| begins_folded(p.0, prefix)
}

/// The code of a character with ASCII capitals folded to small letters.
fn fold_char(c: char) -> (r: u32)
    ensures
        r == fold_ascii(c),
{
    if 'A' <= c && c <= 'Z' {
        (c as u32) + 32
    } else {
        c as u32
    }
}

/// Whether `slug` begins with `prefix`, ASCII letters compared without case.
fn begins_with_folded(slug: &str, prefix: &str) -> (r: bool)
    ensures
        r == begins_folded(slug@, prefix@),
{
    let a = chars_of(slug);
    let b = chars_of(prefix);
    if b.len() > a.len() {
        return false;
    }
    let mut i: usize = 0;
    while i < b.len()
        invariant
            0 <= i <= b@.len(),
            b@.len() <= a@.len(),
            a@ == slug@,
            b@ == prefix@,
            forall|k: int| 0 <= k < i ==> fold_ascii(#[trigger] a@[k]) == fold_ascii(b@[k]),
        decreases b@.len() - i,
    {
        if fold_char(a[i]) != fold_char(b[i]) {
            return false;
        }
        i = i + 1;
    }
    true
}

/// Completion candidates for `entity` whose slug begins with `prefix`, as
/// an interactive prompt offers them: by slug, ASCII letters of the prefix
/// matched without case.
pub fn slug_candidates(store: &Store, entity: CompleteEntity, prefix: &str) -> (r: Vec<(String, String)>)
    requires
        store.wf(),
    ensures
        r@.map_values(|p: (String, String)| pair_view(p)) == sort_by_slug(candidates(*store, entity)).filter(
            with_prefix(prefix@),
        ),
{
    let all = run_complete(store, entity);
    let ghost sorted = all@.map_values(|p: (String, String)| pair_view(p));
    let mut out: Vec<(String, String)> = Vec::new();
    let mut i: usize = 0;
    while i < all.len()
        invariant
            0 <= i <= all@.len(),
            sorted == all@.map_values(|p: (String, String)| pair_view(p)),
            out@.map_values(|p: (String, String)| pair_view(p)) == sorted.take(i as int).filter(with_prefix(prefix@)),
        decreases all@.len() - i,
    {
        proof {
            crate::store::table::lemma_filter_step(sorted, with_prefix(prefix@), i as int);
        }
        if begins_with_folded(all[i].0.as_str(), prefix) {
            let x = (all[i].0.clone(), all[i].1.clone());
            proof {
                lemma_push_view(out@, x);
            }
            out.push(x);
        }
        i = i + 1;
    }
    proof {
        assert(sorted.take(all@.len() as int) =~= sorted);
    }
    out
}

} // verus!
