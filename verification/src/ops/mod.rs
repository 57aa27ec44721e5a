//! Business rules that span several tables: validation, slug generation,
//! cascades and the checks that guard deletion.

pub mod inbox;
pub mod laws;
pub mod query_laws;
pub mod notes;
pub mod projects;
pub mod tasks;
pub mod reminders;
pub mod todos;
pub mod tracker;

use vstd::prelude::*;
use crate::domain::slug::{ensure_unique, is_suffixed, reported, MAX_RETRIES};
use crate::error::ScribeError;
use crate::store::table::{has_key, Record, Table};

pub use inbox::{InboxOps, ProcessAction};
pub use notes::NotesOps;
pub use projects::ProjectOps;
pub use tasks::{CreateTask, TaskOps};
pub use reminders::{CreateReminder, ReminderOps};
pub use todos::TodoOps;
pub use tracker::{StartTimer, TrackerOps};

verus! {

/// `s` is a slug the collision handling may pick for `base` in `rows`: the
/// base itself, or the base with a suffix when the base is taken; never a
/// slug already in use.
pub open spec fn fresh_slug_for<T: Record>(rows: Seq<T>, base: Seq<char>, s: Seq<char>) -> bool {
    &&& s == base || (is_suffixed(s, base) && has_key(rows, base))
    &&& !has_key(rows, s)
}

/// `MAX_RETRIES` suffixed forms of `base` are slugs of `rows`: only then does
/// the collision handling give up.
pub open spec fn suffixes_taken<T: Record>(rows: Seq<T>, base: Seq<char>) -> bool {
    exists|tried: Seq<Seq<char>>|
        tried.len() == MAX_RETRIES && forall|i: int|
            0 <= i < tried.len() ==> is_suffixed(#[trigger] tried[i], base) && has_key(rows, tried[i])
}

/// A slug for `base` that no row of `table` uses, as
/// [`crate::domain::slug::ensure_unique`] finds it.
pub fn unique_slug<T: Record>(table: &Table<T>, base: &str) -> (r: Result<String, ScribeError>)
    requires
        table.wf(),
    ensures
        r matches Ok(s) ==> fresh_slug_for(table@, base@, s@),
        r matches Err(e) ==> e is Slug && has_key(table@, base@) && suffixes_taken(table@, base@),
        !has_key(table@, base@) ==> (r matches Ok(s) && s@ == base@),
{
    let taken = |c: &str| -> (b: bool)
        requires
            table.wf(),
        ensures
            b == has_key(table@, c@),
        {
            table.contains(c)
        };
    match ensure_unique(base, taken) {
        Ok(s) => Ok(s),
        Err(e) => {
            proof {
                let tried = choose|tried: Seq<Seq<char>>|
                    tried.len() == MAX_RETRIES && forall|i: int|
                        0 <= i < tried.len() ==> is_suffixed(#[trigger] tried[i], base@) && reported(
                            taken,
                            tried[i],
                            true,
                        );
                assert forall|i: int| 0 <= i < tried.len() implies is_suffixed(#[trigger] tried[i], base@)
                    && has_key(table@, tried[i]) by {
                    assert(reported(taken, tried[i], true));
                }
            }
            Err(ScribeError::Slug(e))
        },
    }
}

} // verus!
