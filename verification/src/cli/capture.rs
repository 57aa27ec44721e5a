//! `scribe capture <text>`: store a thought in the inbox.

use vstd::prelude::*;
use crate::cli::project::OutputFormat;
use crate::domain::CaptureItem;
use crate::error::ScribeError;
use crate::ops::inbox::InboxOps;
use crate::store::Store;
use crate::text::trimmed;

verus! {

/// `scribe capture`.
#[derive(Debug)]
pub struct CaptureCommand {
    /// The text to capture.
    pub text: String,
    /// Output format.
    pub output: OutputFormat,
}

/// Runs `scribe capture`: the text, trimmed, becomes an inbox item.
pub fn run(cmd: &CaptureCommand, ops: &InboxOps, store: &mut Store) -> (r: Result<CaptureItem, ScribeError>)
    requires
        old(store).wf(),
    ensures
        final(store).wf(),
        trimmed(cmd.text@).len() == 0 ==> r == Err::<CaptureItem, ScribeError>(ScribeError::EmptyBody),
        r matches Ok(c) ==> c.body@ == trimmed(cmd.text@) && !c.processed && final(store).captures@
            == old(store).captures@.push(c) && final(store).only_captures(old(store)),
        r is Err ==> *final(store) == *old(store),
{
    ops.capture(store, cmd.text.as_str())
}

} // verus!
