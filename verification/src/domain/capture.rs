//! `CaptureItem` entity: a raw inbox entry with no project binding.

use vstd::prelude::*;
use crate::domain::CaptureItemId;

verus! {

/// A capture item record.
#[derive(Debug, Clone, PartialEq)]
pub struct CaptureItem {
    /// Internal numeric primary key.
    pub id: CaptureItemId,
    /// Unique slug, e.g. `capture-20260331-143000`.
    pub slug: String,
    /// The captured text.
    pub body: String,
    /// Whether the item has been processed.
    pub processed: bool,
    /// Creation time.
    pub created_at: i64,
}

impl CaptureItem {
    /// A field-by-field copy.
    pub fn duplicate(&self) -> (r: CaptureItem)
        ensures
            r == *self,
    {
        CaptureItem {
            id: self.id,
            slug: self.slug.clone(),
            body: self.body.clone(),
            processed: self.processed,
            created_at: self.created_at,
        }
    }
}

/// Parameters required to create a capture item.
#[derive(Debug, Clone)]
pub struct NewCaptureItem {
    /// Pre-generated unique slug.
    pub slug: String,
    /// The captured text.
    pub body: String,
    /// Creation time.
    pub created_at: i64,
}

} // verus!
