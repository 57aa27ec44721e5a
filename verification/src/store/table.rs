//! A table of records keyed by a unique slug, with fresh numeric ids.
//!
//! Every table keeps two guarantees: no two rows share a slug, and every
//! row has a distinct positive id below the next id to hand out.

use vstd::prelude::*;
use crate::domain::{ProjectId, TaskId};
use crate::text::str_eq;

verus! {

/// A row that can be stored in a [`Table`].
pub trait Record: Sized {
    /// The row's slug.
    spec fn key(&self) -> Seq<char>;

    /// The row's numeric id.
    spec fn ident(&self) -> i64;

    /// The row's slug.
    fn slug_str(&self) -> (r: &str)
        ensures
            r@ == self.key(),
    ;

    /// The row's numeric id.
    fn ident_value(&self) -> (r: i64)
        ensures
            r == self.ident(),
    ;

    /// A copy of the row.
    fn copy_row(&self) -> (r: Self)
        ensures
            r == *self,
    ;
}

/// A row that can be archived and restored.
pub trait Archivable: Record {
    /// When the row was archived, if it is.
    spec fn archived(&self) -> Option<i64>;

    /// The row with its archive time set to `at`, touched at `now`.
    spec fn archived_as(&self, at: Option<i64>, now: i64) -> Self;

    /// When the row was archived, if it is.
    fn archived_value(&self) -> (r: Option<i64>)
        ensures
            r == self.archived(),
    ;

    /// The row with its archive time set to `at`, touched at `now`.
    fn set_archived(self, at: Option<i64>, now: i64) -> (r: Self)
        ensures
            r == self.archived_as(at, now),
    ;

    /// Setting the archive time keeps slug and id, and sets the archive time.
    proof fn lemma_archived_as(&self, at: Option<i64>, now: i64)
        ensures
            self.archived_as(at, now).key() == self.key(),
            self.archived_as(at, now).ident() == self.ident(),
            self.archived_as(at, now).archived() == at,
    ;
}

/// A row that belongs to a project.
pub trait Owned: Archivable {
    /// The project the row belongs to.
    spec fn owner(&self) -> ProjectId;

    /// The project the row belongs to.
    fn owner_value(&self) -> (r: ProjectId)
        ensures
            r == self.owner(),
    ;

    /// Setting the archive time keeps the owner.
    proof fn lemma_owner_kept(&self, at: Option<i64>, now: i64)
        ensures
            self.archived_as(at, now).owner() == self.owner(),
    ;
}

/// No two rows share a slug.
pub open spec fn keys_distinct<T: Record>(rows: Seq<T>) -> bool {
    forall|i: int, j: int|
        0 <= i < rows.len() && 0 <= j < rows.len() && i != j ==> #[trigger] rows[i].key()
            != #[trigger] rows[j].key()
}

/// Every id is positive, below `next`, and used once.
pub open spec fn ids_fresh<T: Record>(rows: Seq<T>, next: i64) -> bool {
    &&& 1 <= next
    &&& forall|i: int| 0 <= i < rows.len() ==> 1 <= #[trigger] rows[i].ident() < next
    &&& forall|i: int, j: int|
        0 <= i < rows.len() && 0 <= j < rows.len() && i != j ==> #[trigger] rows[i].ident()
            != #[trigger] rows[j].ident()
}

/// The row with id `id`, where some row has it.
pub open spec fn with_ident<T: Record>(rows: Seq<T>, id: i64) -> T {
    rows[choose|k: int| 0 <= k < rows.len() && #[trigger] rows[k].ident() == id]
}

/// With distinct ids, the row with id `id` is the one at `k`.
pub proof fn lemma_with_ident<T: Record>(rows: Seq<T>, next: i64, id: i64, k: int)
    requires
        ids_fresh(rows, next),
        0 <= k < rows.len(),
        rows[k].ident() == id,
    ensures
        with_ident(rows, id) == rows[k],
{
    let c = choose|c: int| 0 <= c < rows.len() && #[trigger] rows[c].ident() == id;
    assert(rows[c].ident() == id);
    if c != k {
        assert(rows[c].ident() != rows[k].ident());
    }
}

/// Some row has slug `s`.
pub open spec fn has_key<T: Record>(rows: Seq<T>, s: Seq<char>) -> bool {
    exists|i: int| 0 <= i < rows.len() && #[trigger] rows[i].key() == s
}

/// Some row has id `id`.
pub open spec fn has_ident<T: Record>(rows: Seq<T>, id: i64) -> bool {
    exists|i: int| 0 <= i < rows.len() && #[trigger] rows[i].ident() == id
}

/// The position of the row with slug `s` (meaningful when there is one).
pub open spec fn key_index<T: Record>(rows: Seq<T>, s: Seq<char>) -> int {
    choose|i: int| 0 <= i < rows.len() && #[trigger] rows[i].key() == s
}

/// The row with slug `s`, if any.
pub open spec fn lookup<T: Record>(rows: Seq<T>, s: Seq<char>) -> Option<T> {
    if has_key(rows, s) {
        Some(rows[key_index(rows, s)])
    } else {
        None
    }
}

/// With distinct slugs, the row with slug `s` is the one found at `i`.
pub proof fn lemma_key_index<T: Record>(rows: Seq<T>, s: Seq<char>, i: int)
    requires
        keys_distinct(rows),
        0 <= i < rows.len(),
        rows[i].key() == s,
    ensures
        has_key(rows, s),
        key_index(rows, s) == i,
        lookup(rows, s) == Some(rows[i]),
{
    assert(has_key(rows, s));
    let j = key_index(rows, s);
    assert(0 <= j < rows.len() && rows[j].key() == s);
}

/// Filtering one more element of a prefix either keeps it or not.
pub proof fn lemma_filter_step<T>(s: Seq<T>, p: spec_fn(T) -> bool, i: int)
    requires
        0 <= i < s.len(),
    ensures
        s.take(i + 1).filter(p) == (if p(s[i]) {
            s.take(i).filter(p).push(s[i])
        } else {
            s.take(i).filter(p)
        }),
{
    reveal(Seq::filter);
    assert(s.take(i + 1).drop_last() =~= s.take(i));
    assert(s.take(i + 1).last() == s[i]);
}

/// A row as the cascade leaves it: archived at `now` when it belongs to
/// `pid` and is not archived yet, unchanged otherwise.
pub open spec fn cascade_row<T: Owned>(row: T, pid: ProjectId, now: i64) -> T {
    if row.owner() == pid && row.archived() is None {
        row.archived_as(Some(now), now)
    } else {
        row
    }
}

/// Every row of `rows` as the cascade for `pid` leaves it.
pub open spec fn cascade<T: Owned>(rows: Seq<T>, pid: ProjectId, now: i64) -> Seq<T> {
    Seq::new(rows.len(), |i: int| cascade_row(rows[i], pid, now))
}

/// The row belongs to project `pid` and is not archived.
pub open spec fn open_of<T: Owned>(row: T, pid: ProjectId) -> bool {
    row.owner() == pid && row.archived() is None
}

/// Some row of project `pid` is not archived.
pub open spec fn has_open_owner<T: Owned>(rows: Seq<T>, pid: ProjectId) -> bool {
    exists|i: int| 0 <= i < rows.len() && open_of(#[trigger] rows[i], pid)
}

/// The predicate "belongs to another project than `pid`".
pub open spec fn not_of<T: Owned>(pid: ProjectId) -> spec_fn(T) -> bool {
    |r: T| r.owner() != pid
}

/// A row that may name a task it belongs to.
pub trait TaskLinked: Record {
    /// The task the row names, if any.
    spec fn task_ref(&self) -> Option<TaskId>;

    /// The row naming no task.
    spec fn unlinked(&self) -> Self;

    /// The task the row names, if any.
    fn task_ref_value(&self) -> (r: Option<TaskId>)
        ensures
            r == self.task_ref(),
    ;

    /// The row naming no task.
    fn unlink(self) -> (r: Self)
        ensures
            r == self.unlinked(),
    ;

    /// Unlinking keeps slug and id, and leaves no task named.
    proof fn lemma_unlinked(&self)
        ensures
            self.unlinked().key() == self.key(),
            self.unlinked().ident() == self.ident(),
            self.unlinked().task_ref() is None,
    ;
}

/// A row as it stands once the tasks `gone` are deleted: naming no task
/// where it named one of them, unchanged otherwise.
pub open spec fn unlink_row<T: TaskLinked>(row: T, gone: Seq<TaskId>) -> T {
    match row.task_ref() {
        Some(t) => if gone.contains(t) { row.unlinked() } else { row },
        None => row,
    }
}

/// Every row as it stands once the tasks `gone` are deleted.
pub open spec fn unlink_rows<T: TaskLinked>(rows: Seq<T>, gone: Seq<TaskId>) -> Seq<T> {
    Seq::new(rows.len(), |i: int| unlink_row(rows[i], gone))
}

/// Whether `gone` holds the task id `t`.
fn holds_task(gone: &Vec<TaskId>, t: TaskId) -> (r: bool)
    ensures
        r == gone@.contains(t),
{
    let mut i: usize = 0;
    while i < gone.len()
        invariant
            0 <= i <= gone@.len(),
            forall|j: int| 0 <= j < i ==> gone@[j] != t,
        decreases gone@.len() - i,
    {
        if gone[i].0 == t.0 {
            assert(gone@[i as int] == t);
            return true;
        }
        i = i + 1;
    }
    false
}

/// Rows keyed by a unique slug.
pub struct Table<T> {
    rows: Vec<T>,
    next_id: i64,
}

impl<T> View for Table<T> {
    type V = Seq<T>;

    closed spec fn view(&self) -> Seq<T> {
        self.rows@
    }
}

impl<T: Record> Table<T> {
    /// The id the next inserted row gets.
    pub closed spec fn next(&self) -> i64 {
        self.next_id
    }

    /// Slugs are distinct and ids fresh.
    pub open spec fn wf(&self) -> bool {
        keys_distinct(self@) && ids_fresh(self@, self.next())
    }

    /// An empty table whose first id is 1.
    pub fn new() -> (t: Self)
        ensures
            t@ == Seq::<T>::empty(),
            t.next() == 1,
            t.wf(),
    {
        Table { rows: Vec::new(), next_id: 1 }
    }

    /// A table made of `rows`, when their slugs are distinct and their ids
    /// positive, distinct and below `next_id`.
    pub fn from_rows(rows: Vec<T>, next_id: i64) -> (r: Option<Self>)
        ensures
            r is Some <==> keys_distinct(rows@) && ids_fresh(rows@, next_id),
            r matches Some(t) ==> t@ == rows@ && t.next() == next_id && t.wf(),
    {
        if next_id < 1 {
            return None;
        }
        let n = rows.len();
        let mut i: usize = 0;
        while i < n
            invariant
                n == rows.len(),
                0 <= i <= n,
                1 <= next_id,
                forall|a: int| 0 <= a < i ==> 1 <= #[trigger] rows@[a].ident() < next_id,
                forall|a: int, b: int|
                    0 <= a < i && 0 <= b < n && a != b ==> #[trigger] rows@[a].key()
                        != #[trigger] rows@[b].key(),
                forall|a: int, b: int|
                    0 <= a < i && 0 <= b < n && a != b ==> #[trigger] rows@[a].ident()
                        != #[trigger] rows@[b].ident(),
            decreases n - i,
        {
            let id = rows[i].ident_value();
            if id < 1 || id >= next_id {
                return None;
            }
            let mut j: usize = 0;
            while j < n
                invariant
                    n == rows.len(),
                    0 <= i < n,
                    0 <= j <= n,
                    forall|b: int|
                        0 <= b < j && b != i ==> rows@[i as int].key() != #[trigger] rows@[b].key(),
                    forall|b: int|
                        0 <= b < j && b != i ==> rows@[i as int].ident()
                            != #[trigger] rows@[b].ident(),
                decreases n - j,
            {
                if j != i {
                    if str_eq(rows[i].slug_str(), rows[j].slug_str()) {
                        assert(!keys_distinct(rows@)) by {
                            assert(rows@[i as int].key() == rows@[j as int].key());
                        }
                        return None;
                    }
                    if rows[i].ident_value() == rows[j].ident_value() {
                        assert(!ids_fresh(rows@, next_id)) by {
                            assert(rows@[i as int].ident() == rows@[j as int].ident());
                        }
                        return None;
                    }
                }
                j = j + 1;
            }
            assert forall|a: int, b: int|
                0 <= a < i + 1 && 0 <= b < n && a != b implies #[trigger] rows@[a].key()
                    != #[trigger] rows@[b].key() by {
                if a == i {
                    assert(rows@[i as int].key() != rows@[b].key());
                }
            }
            assert forall|a: int, b: int|
                0 <= a < i + 1 && 0 <= b < n && a != b implies #[trigger] rows@[a].ident()
                    != #[trigger] rows@[b].ident() by {
                if a == i {
                    assert(rows@[i as int].ident() != rows@[b].ident());
                }
            }
            i = i + 1;
        }
        Some(Table { rows, next_id })
    }

    /// The rows, in insertion order.
    pub fn rows(&self) -> (r: &Vec<T>)
        ensures
            r@ == self@,
    {
        &self.rows
    }

    /// The id the next inserted row gets.
    pub fn next_id(&self) -> (r: i64)
        ensures
            r == self.next(),
    {
        self.next_id
    }

    /// The position of the row with slug `s`, if any.
    pub fn find(&self, s: &str) -> (r: Option<usize>)
        requires
            self.wf(),
        ensures
            r is None <==> !has_key(self@, s@),
            r matches Some(i) ==> i < self@.len() && self@[i as int].key() == s@ && key_index(
                self@,
                s@,
            ) == i,
    {
        let mut i: usize = 0;
        while i < self.rows.len()
            invariant
                0 <= i <= self@.len(),
                self.wf(),
                forall|j: int| 0 <= j < i ==> #[trigger] self@[j].key() != s@,
            decreases self@.len() - i,
        {
            if str_eq(self.rows[i].slug_str(), s) {
                proof {
                    lemma_key_index(self@, s@, i as int);
                }
                return Some(i);
            }
            i = i + 1;
        }
        None
    }

    /// The position of the row with id `id`, if any.
    pub fn find_id(&self, id: i64) -> (r: Option<usize>)
        requires
            self.wf(),
        ensures
            r is None <==> !has_ident(self@, id),
            r matches Some(i) ==> i < self@.len() && self@[i as int].ident() == id,
    {
        let mut i: usize = 0;
        while i < self.rows.len()
            invariant
                0 <= i <= self@.len(),
                forall|j: int| 0 <= j < i ==> #[trigger] self@[j].ident() != id,
            decreases self@.len() - i,
        {
            if self.rows[i].ident_value() == id {
                return Some(i);
            }
            i = i + 1;
        }
        None
    }

    /// Whether some row has slug `s`.
    pub fn contains(&self, s: &str) -> (r: bool)
        requires
            self.wf(),
        ensures
            r == has_key(self@, s@),
    {
        self.find(s).is_some()
    }

    /// A copy of the row with slug `s`, if any.
    pub fn get(&self, s: &str) -> (r: Option<T>)
        requires
            self.wf(),
        ensures
            r == lookup(self@, s@),
    {
        match self.find(s) {
            Some(i) => {
                proof {
                    lemma_key_index(self@, s@, i as int);
                }
                Some(self.rows[i].copy_row())
            },
            None => None,
        }
    }

    /// Copies of the rows that `keep` accepts, in table order; `keep`
    /// decides as `p` does.
    pub fn select<F: Fn(&T) -> bool>(&self, keep: F, Ghost(p): Ghost<spec_fn(T) -> bool>) -> (r:
        Vec<T>)
        requires
            forall|x: &T| #[trigger] keep.requires((x,)),
            forall|x: &T, b: bool| #[trigger] keep.ensures((x,), b) ==> b == p(*x),
        ensures
            r@ == self@.filter(p),
    {
        let mut out: Vec<T> = Vec::new();
        let mut i: usize = 0;
        while i < self.rows.len()
            invariant
                0 <= i <= self@.len(),
                forall|x: &T| #[trigger] keep.requires((x,)),
                forall|x: &T, b: bool| #[trigger] keep.ensures((x,), b) ==> b == p(*x),
                out@ == self@.take(i as int).filter(p),
            decreases self@.len() - i,
        {
            proof {
                lemma_filter_step(self@, p, i as int);
            }
            if keep(&self.rows[i]) {
                out.push(self.rows[i].copy_row());
            }
            i = i + 1;
        }
        assert(self@.take(self@.len() as int) =~= self@);
        out
    }

    /// Appends a row whose slug is new and whose id is the next one.
    pub fn insert(&mut self, row: T)
        requires
            old(self).wf(),
            !has_key(old(self)@, row.key()),
            row.ident() == old(self).next(),
            old(self).next() < i64::MAX,
        ensures
            final(self)@ == old(self)@.push(row),
            final(self).next() == old(self).next() + 1,
            final(self).wf(),
    {
        let ghost k = row.key();
        self.rows.push(row);
        self.next_id = self.next_id + 1;
        assert forall|i: int| 0 <= i < old(self)@.len() implies #[trigger] self@[i].key() != k by {
            assert(self@[i] == old(self)@[i]);
        }
    }

    /// Replaces the row at `i` by one with the same id and a slug no other
    /// row has.
    pub fn replace(&mut self, i: usize, row: T)
        requires
            old(self).wf(),
            i < old(self)@.len(),
            row.ident() == old(self)@[i as int].ident(),
            forall|j: int|
                0 <= j < old(self)@.len() && j != i ==> #[trigger] old(self)@[j].key() != row.key(),
        ensures
            final(self)@ == old(self)@.update(i as int, row),
            final(self).next() == old(self).next(),
            final(self).wf(),
    {
        self.rows[i] = row;
    }

    /// Removes the row at `i`.
    pub fn remove_at(&mut self, i: usize)
        requires
            old(self).wf(),
            i < old(self)@.len(),
        ensures
            final(self)@ == old(self)@.remove(i as int),
            final(self).next() == old(self).next(),
            final(self).wf(),
    {
        self.rows.remove(i);
        assert forall|a: int, b: int|
            0 <= a < self@.len() && 0 <= b < self@.len() && a != b implies #[trigger] self@[a].key()
                != #[trigger] self@[b].key() by {
            let a0 = if a < i { a } else { a + 1 };
            let b0 = if b < i { b } else { b + 1 };
            assert(self@[a] == old(self)@[a0]);
            assert(self@[b] == old(self)@[b0]);
        }
        assert forall|a: int, b: int|
            0 <= a < self@.len() && 0 <= b < self@.len() && a != b implies #[trigger] self@[a].ident()
                != #[trigger] self@[b].ident() by {
            let a0 = if a < i { a } else { a + 1 };
            let b0 = if b < i { b } else { b + 1 };
            assert(self@[a] == old(self)@[a0]);
            assert(self@[b] == old(self)@[b0]);
        }
        assert forall|a: int| 0 <= a < self@.len() implies 1 <= #[trigger] self@[a].ident()
            < self.next() by {
            let a0 = if a < i { a } else { a + 1 };
            assert(self@[a] == old(self)@[a0]);
        }
    }
}

impl<T: Archivable> Table<T> {
    /// Sets the archive time of the row at `i` to `at`, touching it at `now`.
    pub fn set_archived_at(&mut self, i: usize, at: Option<i64>, now: i64)
        requires
            old(self).wf(),
            i < old(self)@.len(),
        ensures
            final(self)@ == old(self)@.update(i as int, old(self)@[i as int].archived_as(at, now)),
            final(self).next() == old(self).next(),
            final(self).wf(),
    {
        let row = self.rows[i].copy_row();
        proof {
            row.lemma_archived_as(at, now);
        }
        let row = row.set_archived(at, now);
        self.replace(i, row);
    }
}

impl<T: Owned> Table<T> {
    /// Archives, at `now`, every row of project `pid` that is not archived yet.
    pub fn archive_owned_by(&mut self, pid: ProjectId, now: i64)
        requires
            old(self).wf(),
        ensures
            final(self)@ == cascade(old(self)@, pid, now),
            final(self).next() == old(self).next(),
            final(self).wf(),
    {
        let n = self.rows.len();
        let mut i: usize = 0;
        while i < n
            invariant
                n == self@.len(),
                n == old(self)@.len(),
                0 <= i <= n,
                self.wf(),
                self.next() == old(self).next(),
                forall|j: int| 0 <= j < i ==> #[trigger] self@[j] == cascade_row(old(self)@[j], pid, now),
                forall|j: int| i <= j < n ==> #[trigger] self@[j] == old(self)@[j],
            decreases n - i,
        {
            let owner = self.rows[i].owner_value();
            let archived = self.rows[i].archived_value();
            if owner == pid && archived.is_none() {
                self.set_archived_at(i, Some(now), now);
            }
            i = i + 1;
        }
        assert(self@ =~= cascade(old(self)@, pid, now));
    }

    /// Whether some row of project `pid` is not archived.
    pub fn any_open_owned_by(&self, pid: ProjectId) -> (r: bool)
        ensures
            r == has_open_owner(self@, pid),
    {
        let mut i: usize = 0;
        while i < self.rows.len()
            invariant
                0 <= i <= self@.len(),
                forall|j: int| 0 <= j < i ==> !open_of(#[trigger] self@[j], pid),
            decreases self@.len() - i,
        {
            if self.rows[i].owner_value() == pid && self.rows[i].archived_value().is_none() {
                assert(open_of(self@[i as int], pid));
                return true;
            }
            i = i + 1;
        }
        false
    }

    /// Removes every row of project `pid`.
    pub fn remove_owned_by(&mut self, pid: ProjectId)
        requires
            old(self).wf(),
        ensures
            final(self)@ == old(self)@.filter(not_of(pid)),
            final(self).next() == old(self).next(),
            final(self).wf(),
    {
        let ghost o = old(self)@;
        let mut i: usize = self.rows.len();
        proof {
            assert(o.skip(o.len() as int).filter(not_of(pid)) =~= Seq::<T>::empty()) by {
                reveal(Seq::filter);
                assert(o.skip(o.len() as int) =~= Seq::<T>::empty());
            }
            assert(self@ =~= o.take(i as int) + o.skip(i as int).filter(not_of(pid)));
        }
        while i > 0
            invariant
                0 <= i <= o.len(),
                self@ == o.take(i as int) + o.skip(i as int).filter(not_of(pid)),
                self.wf(),
                self.next() == old(self).next(),
            decreases i,
        {
            let k = i - 1;
            let owner = self.rows[k].owner_value();
            proof {
                assert(self@[k as int] == o[k as int]);
                assert(o.skip(k as int) =~= seq![o[k as int]] + o.skip(i as int));
                o.skip(i as int).lemma_filter_prepend(o[k as int], not_of(pid));
            }
            if owner == pid {
                self.remove_at(k);
                proof {
                    assert(self@ =~= o.take(k as int) + o.skip(k as int).filter(not_of(pid)));
                }
            } else {
                proof {
                    assert(self@ =~= o.take(k as int) + o.skip(k as int).filter(not_of(pid)));
                }
            }
            i = k;
        }
        proof {
            assert(o.skip(0) =~= o);
            assert(self@ =~= o.filter(not_of(pid)));
        }
    }
}

impl<T: TaskLinked> Table<T> {
    /// Clears every reference to one of the tasks `gone`.
    pub fn unlink_tasks(&mut self, gone: &Vec<TaskId>)
        requires
            old(self).wf(),
        ensures
            final(self)@ == unlink_rows(old(self)@, gone@),
            final(self).next() == old(self).next(),
            final(self).wf(),
    {
        let n = self.rows.len();
        let mut i: usize = 0;
        while i < n
            invariant
                n == self@.len(),
                n == old(self)@.len(),
                0 <= i <= n,
                self.wf(),
                self.next() == old(self).next(),
                forall|j: int| 0 <= j < i ==> #[trigger] self@[j] == unlink_row(old(self)@[j], gone@),
                forall|j: int| i <= j < n ==> #[trigger] self@[j] == old(self)@[j],
            decreases n - i,
        {
            match self.rows[i].task_ref_value() {
                Some(t) => {
                    if holds_task(gone, t) {
                        let row = self.rows[i].copy_row();
                        proof {
                            row.lemma_unlinked();
                            assert forall|j: int| 0 <= j < n && j != i implies #[trigger] self@[j].key()
                                != row.unlinked().key() by {
                                assert(self@[i as int].key() == row.key());
                            }
                        }
                        let row = row.unlink();
                        self.replace(i, row);
                    }
                },
                None => {},
            }
            i = i + 1;
        }
        assert(self@ =~= unlink_rows(old(self)@, gone@));
    }
}

} // verus!
