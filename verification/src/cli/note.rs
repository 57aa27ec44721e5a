//! `scribe note …`: add, create, edit, list, show and delete notes.
//!
//! Adding and editing hand the note back for editing outside the library;
//! the edited text is saved with [`crate::ops::NotesOps::save_content`].

use vstd::prelude::*;
use crate::cli::project::OutputFormat;
use crate::domain::slug::slug_title;
use crate::domain::{Link, Note, NewNote};
use crate::error::{Entity, ScribeError};
use crate::ops::notes::{link_pair, search_hits, synced_pairs, NotesOps};
use crate::store::table::{has_key, key_index, lookup};
use crate::store::Store;

verus! {

/// `scribe note`.
#[derive(Debug)]
pub struct NoteCommand {
    /// The subcommand.
    pub subcommand: NoteSubcommand,
}

/// The `scribe note` subcommands.
#[derive(Debug)]
pub enum NoteSubcommand {
    /// Create a note and open it for editing.
    Add(NoteAdd),
    /// Create a note from given content.
    Create(NoteCreate),
    /// Open a note for editing.
    Edit(NoteEdit),
    /// List notes.
    List(NoteList),
    /// Show a note.
    Show(NoteShow),
    /// Delete a note.
    Delete(NoteDelete),
}

/// `scribe note add`.
#[derive(Debug)]
pub struct NoteAdd {
    /// The note's slug.
    pub slug: String,
    /// The note's title.
    pub title: String,
    /// Output format.
    pub output: OutputFormat,
}

/// `scribe note create`.
#[derive(Debug)]
pub struct NoteCreate {
    /// The note's title.
    pub title: String,
    /// The note's content; empty when absent.
    pub content: Option<String>,
    /// Output format.
    pub output: OutputFormat,
}

/// `scribe note edit`.
#[derive(Debug)]
pub struct NoteEdit {
    /// The note's slug.
    pub slug: String,
    /// Output format.
    pub output: OutputFormat,
}

/// `scribe note list`.
#[derive(Debug)]
pub struct NoteList {
    /// Only notes whose title or content contains this text.
    pub search: Option<String>,
    /// Output format.
    pub output: OutputFormat,
}

/// `scribe note show`.
#[derive(Debug)]
pub struct NoteShow {
    /// The note's slug.
    pub slug: String,
    /// Output format.
    pub output: OutputFormat,
}

/// `scribe note delete`.
#[derive(Debug)]
pub struct NoteDelete {
    /// The note's slug.
    pub slug: String,
    /// Output format.
    pub output: OutputFormat,
}

/// What a note command produced.
#[derive(Debug)]
pub enum NoteOutcome {
    /// The note created or shown.
    Note(Note),
    /// The note to edit, as it is now.
    Edit(Note),
    /// The notes listed.
    Notes(Vec<Note>),
    /// The slug of the deleted note.
    Deleted(String),
}

/// What running `cmd` on `old`, leaving `new`, may produce.
pub open spec fn note_run_done(
    cmd: NoteCommand,
    old: &Store,
    new: &Store,
    r: Result<NoteOutcome, ScribeError>,
) -> bool {
    &&& new.wf()
    &&& (r is Err ==> *new == *old)
    &&& match cmd.subcommand {
        NoteSubcommand::Add(a) => {
            &&& (r is Ok <==> !has_key(old.notes@, a.slug@) && old.notes.next() < i64::MAX)
            &&& (r matches Ok(o) ==> o matches NoteOutcome::Edit(n) && n.slug == a.slug && n.title == a.title
                && n.content@.len() == 0 && new.notes@ == old.notes@.push(n))
        },
        NoteSubcommand::Create(a) => {
            &&& (!has_key(old.notes@, slug_title(a.title@)) && old.notes.next()
                < i64::MAX ==> r is Ok)
            &&& (r matches Ok(o) ==> o matches NoteOutcome::Note(n) && n.title@ == a.title@
                && n.content@ == match a.content { Some(c) => c@, None => Seq::empty() }
                && new.notes@ == old.notes@.push(n)
                && new.links@.map_values(|l: Link| link_pair(l)) == synced_pairs(
                    old.links@,
                    n.slug@,
                    n.content@,
                ))
        },
        NoteSubcommand::Edit(a) => {
            &&& *new == *old
            &&& (r is Ok <==> has_key(old.notes@, a.slug@))
            &&& (r matches Ok(o) ==> o matches NoteOutcome::Edit(n) && lookup(old.notes@, a.slug@) == Some(n))
        },
        NoteSubcommand::List(a) => {
            &&& *new == *old
            &&& (r matches Ok(o) && o matches NoteOutcome::Notes(v) && v@ == match a.search {
                Some(q) => search_hits(old.notes@, q@),
                None => old.notes@,
            })
        },
        NoteSubcommand::Show(a) => {
            &&& *new == *old
            &&& (r is Ok <==> has_key(old.notes@, a.slug@))
            &&& (r matches Ok(o) ==> o matches NoteOutcome::Note(n) && lookup(old.notes@, a.slug@) == Some(n))
        },
        NoteSubcommand::Delete(a) => {
            &&& (r is Ok <==> has_key(old.notes@, a.slug@))
            &&& (r matches Ok(o) ==> o matches NoteOutcome::Deleted(s) && s == a.slug
                && new.notes@ == old.notes@.remove(key_index(old.notes@, a.slug@)))
        },
    }
}

/// Runs a `scribe note` command against the store. Creating from content
/// needs room for its links among the link ids.
pub fn run(cmd: &NoteCommand, ops: &NotesOps, store: &mut Store) -> (r: Result<NoteOutcome, ScribeError>)
    requires
        old(store).wf(),
        cmd.subcommand matches NoteSubcommand::Create(a) ==> match a.content {
            Some(c) => old(store).next_link_id + c@.len() < i64::MAX,
            None => old(store).next_link_id < i64::MAX,
        },
    ensures
        note_run_done(*cmd, old(store), final(store), r),
{
    match &cmd.subcommand {
        NoteSubcommand::Add(a) => {
            let note = NewNote { slug: a.slug.clone(), title: a.title.clone(), content: String::new() };
            match ops.create_note(store, note) {
                Ok(n) => Ok(NoteOutcome::Edit(n)),
                Err(e) => Err(e),
            }
        },
        NoteSubcommand::Create(a) => {
            let content = match &a.content {
                Some(c) => c.clone(),
                None => String::new(),
            };
            match ops.write_note(store, a.title.as_str(), content.as_str()) {
                Ok(n) => Ok(NoteOutcome::Note(n)),
                Err(e) => Err(e),
            }
        },
        NoteSubcommand::Edit(a) => match ops.get(store, a.slug.as_str()) {
            Some(n) => Ok(NoteOutcome::Edit(n)),
            None => Err(ScribeError::NotFound { entity: Entity::Note, slug: a.slug.clone() }),
        },
        NoteSubcommand::List(a) => match &a.search {
            Some(q) => Ok(NoteOutcome::Notes(ops.search_notes(store, q.as_str()))),
            None => Ok(NoteOutcome::Notes(ops.list(store))),
        },
        NoteSubcommand::Show(a) => match ops.get(store, a.slug.as_str()) {
            Some(n) => Ok(NoteOutcome::Note(n)),
            None => Err(ScribeError::NotFound { entity: Entity::Note, slug: a.slug.clone() }),
        },
        NoteSubcommand::Delete(a) => match ops.delete_note(store, a.slug.as_str()) {
            Ok(()) => Ok(NoteOutcome::Deleted(a.slug.clone())),
            Err(e) => Err(e),
        },
    }
}

} // verus!
