//! `scribe inbox …`: list inbox items and process one.
//!
//! Processing asks the user for a choice, a project and a title; the
//! answers are read outside the library and turned into an action here.

use vstd::prelude::*;
use crate::cli::project::OutputFormat;
use crate::domain::CaptureItem;
use crate::error::ScribeError;
use crate::ops::inbox::{capture_filter, InboxOps, ProcessAction};
use crate::store::Store;
use crate::text::{push_str, str_eq, string_of, trim_chars, trimmed};

verus! {

/// `scribe inbox`.
#[derive(Debug)]
pub struct InboxCommand {
    /// The subcommand.
    pub subcommand: InboxSubcommand,
}

/// The `scribe inbox` subcommands.
#[derive(Debug)]
pub enum InboxSubcommand {
    /// List inbox items.
    List(InboxList),
    /// Process an inbox item.
    Process(InboxProcess),
}

/// `scribe inbox list`.
#[derive(Debug)]
pub struct InboxList {
    /// Include processed items.
    pub all: bool,
    /// Output format.
    pub output: OutputFormat,
}

/// `scribe inbox process`.
#[derive(Debug)]
pub struct InboxProcess {
    /// The item's slug.
    pub slug: String,
    /// Output format; JSON shows the item without asking anything.
    pub output: OutputFormat,
}

/// The menu choice made when processing an item.
#[derive(Debug, Clone, Copy, PartialEq, Eq, Structural)]
pub enum ProcessChoice {
    /// `1`: convert to a task.
    Task,
    /// `2`: convert to a todo.
    Todo,
    /// `3`: assign to a project.
    Assign,
    /// `4`: discard.
    Discard,
}

/// The choice a trimmed answer names.
pub open spec fn choice_of(answer: Seq<char>) -> Result<ProcessChoice, Seq<char>> {
    let t = trimmed(answer);
    if t == "1"@ {
        Ok(ProcessChoice::Task)
    } else if t == "2"@ {
        Ok(ProcessChoice::Todo)
    } else if t == "3"@ {
        Ok(ProcessChoice::Assign)
    } else if t == "4"@ {
        Ok(ProcessChoice::Discard)
    } else {
        Err("invalid choice '"@ + t + "'"@)
    }
}

/// Reads the menu answer: `1` to `4`, surrounding whitespace ignored.
pub fn parse_choice(answer: &str) -> (r: Result<ProcessChoice, ScribeError>)
    ensures
        match r {
            Ok(c) => choice_of(answer@) == Ok::<ProcessChoice, Seq<char>>(c),
            Err(e) => e is Input && choice_of(answer@) == Err::<ProcessChoice, Seq<char>>(e->message@),
        },
{
    let t = string_of(&trim_chars(answer));
    if str_eq(t.as_str(), "1") {
        Ok(ProcessChoice::Task)
    } else if str_eq(t.as_str(), "2") {
        Ok(ProcessChoice::Todo)
    } else if str_eq(t.as_str(), "3") {
        Ok(ProcessChoice::Assign)
    } else if str_eq(t.as_str(), "4") {
        Ok(ProcessChoice::Discard)
    } else {
        let mut out: Vec<char> = Vec::new();
        push_str(&mut out, "invalid choice '");
        push_str(&mut out, t.as_str());
        push_str(&mut out, "'");
        Err(ScribeError::Input { message: string_of(&out) })
    }
}

/// The action a choice, project answer and title answer make: an empty
/// title means the item's body.
pub open spec fn action_of(choice: ProcessChoice, project_slug: String, title: String) -> ProcessAction {
    let t = if title@.len() == 0 { None } else { Some(title) };
    match choice {
        ProcessChoice::Task => ProcessAction::ConvertToTask { project_slug, title: t, priority: None },
        ProcessChoice::Todo => ProcessAction::ConvertToTodo { project_slug, title: t },
        ProcessChoice::Assign => ProcessAction::AssignToProject { project_slug },
        ProcessChoice::Discard => ProcessAction::Discard,
    }
}

/// Builds the action for the answers given.
pub fn build_action(choice: ProcessChoice, project_slug: String, title: String) -> (r: ProcessAction)
    ensures
        r == action_of(choice, project_slug, title),
{
    let t = if title.as_str().is_empty() { None } else { Some(title) };
    match choice {
        ProcessChoice::Task => ProcessAction::ConvertToTask { project_slug, title: t, priority: None },
        ProcessChoice::Todo => ProcessAction::ConvertToTodo { project_slug, title: t },
        ProcessChoice::Assign => ProcessAction::AssignToProject { project_slug },
        ProcessChoice::Discard => ProcessAction::Discard,
    }
}

/// Lists inbox items: unprocessed ones, or all with `all`.
pub fn list(args: &InboxList, ops: &InboxOps, store: &Store) -> (r: Vec<CaptureItem>)
    requires
        store.wf(),
    ensures
        r@ == store.captures@.filter(capture_filter(args.all)),
{
    ops.list(store, args.all)
}

} // verus!
