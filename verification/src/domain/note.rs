//! `Note` entity, `[[slug]]` links between notes, and link parsing.

use vstd::prelude::*;
use crate::domain::NoteId;

verus! {

/// A markdown note with a user-chosen slug.
#[derive(Debug, Clone, PartialEq)]
pub struct Note {
    /// Internal numeric primary key.
    pub id: NoteId,
    /// Unique kebab-case slug.
    pub slug: String,
    /// Note title.
    pub title: String,
    /// Markdown content.
    pub content: String,
    /// Creation time.
    pub created_at: i64,
    /// Last-updated time.
    pub updated_at: i64,
}

impl Note {
    /// A field-by-field copy.
    pub fn duplicate(&self) -> (r: Note)
        ensures
            r == *self,
    {
        Note {
            id: self.id,
            slug: self.slug.clone(),
            title: self.title.clone(),
            content: self.content.clone(),
            created_at: self.created_at,
            updated_at: self.updated_at,
        }
    }
}

/// Parameters required to create a note.
#[derive(Debug, Clone)]
pub struct NewNote {
    /// Unique slug.
    pub slug: String,
    /// Note title.
    pub title: String,
    /// Markdown content.
    pub content: String,
}

/// Partial update of a note; `None` leaves a field as is.
#[derive(Debug, Clone)]
pub struct NotePatch {
    /// New title.
    pub title: Option<String>,
    /// New content.
    pub content: Option<String>,
}

/// A directed link from one note to another.
#[derive(Debug, Clone, PartialEq)]
pub struct Link {
    /// Internal numeric primary key.
    pub id: i64,
    /// Slug of the linking note.
    pub source_slug: String,
    /// Slug of the linked note.
    pub target_slug: String,
    /// Creation time.
    pub created_at: i64,
}

impl Link {
    /// A field-by-field copy.
    pub fn duplicate(&self) -> (r: Link)
        ensures
            r == *self,
    {
        Link {
            id: self.id,
            source_slug: self.source_slug.clone(),
            target_slug: self.target_slug.clone(),
            created_at: self.created_at,
        }
    }
}

} // verus!
