//! Note operations: creating notes, saving their content, and keeping the
//! `[[slug]]` links between notes in step with the content.
//!
//! Editing happens outside the library: the caller obtains new content
//! (from an editor, say) and hands it to [`NotesOps::save_content`].

use vstd::prelude::*;
use crate::clock::now_unix;
use crate::domain::links::{link_slugs, parse_links};
use crate::domain::slug::{generate, slug_title};
use crate::ops::{fresh_slug_for, unique_slug};
use crate::service::contains_seq;
use crate::domain::{Link, NewNote, Note, NoteId};
use crate::error::{Entity, ScribeError};
use crate::store::table::{has_key, key_index, lookup, lemma_filter_step};
use crate::store::{Record, Store};
use crate::text::str_eq;

verus! {

/// A link as the pair of its source and target slugs.
pub open spec fn link_pair(l: Link) -> (Seq<char>, Seq<char>) {
    (l.source_slug@, l.target_slug@)
}

/// Links whose source is not `s`.
pub open spec fn not_from(s: Seq<char>) -> spec_fn(Link) -> bool {
    |l: Link| l.source_slug@ != s
}

/// Slugs other than `s`.
pub open spec fn other_than(s: Seq<char>) -> spec_fn(Seq<char>) -> bool {
    |t: Seq<char>| t != s
}

/// The links from `source` that content `content` calls for: one per
/// distinct `[[slug]]` target, in order of first appearance, self-links
/// left out.
pub open spec fn wanted_links(source: Seq<char>, content: Seq<char>) -> Seq<(Seq<char>, Seq<char>)> {
    link_slugs(content).filter(other_than(source)).map_values(|t: Seq<char>| (source, t))
}

/// The link pairs after syncing `source` with `content`: every link from
/// another source kept, then the wanted links of `source`.
pub open spec fn synced_pairs(old: Seq<Link>, source: Seq<char>, content: Seq<char>) -> Seq<(Seq<char>, Seq<char>)> {
    old.filter(not_from(source)).map_values(|l: Link| link_pair(l)) + wanted_links(source, content)
}

/// Notes whose title or content contains `q`.
pub open spec fn mentions(q: Seq<char>) -> spec_fn(Note) -> bool {
    |n: Note| contains_seq(n.title@, q) || contains_seq(n.content@, q)
}

/// Whether `s` contains `q`.
fn contains_text(s: &str, q: &str) -> (r: bool)
    ensures
        r == contains_seq(s@, q@),
{
    crate::service::contains_str(s, q)
}

/// Note `n` with its content replaced, touched at `now`.
pub open spec fn with_content(n: Note, content: String, now: i64) -> Note {
    Note { content, updated_at: now, ..n }
}

/// The most notes a search returns.
pub const SEARCH_LIMIT: usize = 50;

/// The notes mentioning `q`, oldest first, at most [`SEARCH_LIMIT`].
pub open spec fn search_hits(notes: Seq<Note>, q: Seq<char>) -> Seq<Note> {
    let found = notes.filter(mentions(q));
    found.take(if found.len() <= SEARCH_LIMIT { found.len() as int } else { SEARCH_LIMIT as int })
}

/// Note operations and link bookkeeping.
#[derive(Debug, Clone, Copy)]
pub struct NotesOps;

impl NotesOps {
    /// A handle for note operations.
    pub fn new() -> (r: NotesOps) {
        NotesOps
    }

    /// Replaces every link from `source_slug` by one link to each distinct
    /// `[[slug]]` target of `content`, in order of first appearance, leaving
    /// out links from a note to itself.
    pub fn sync_links(&self, store: &mut Store, source_slug: &str, content: &str)
        requires
            old(store).wf(),
            old(store).next_link_id + content@.len() < i64::MAX,
        ensures
            final(store).wf(),
            final(store).links@.map_values(|l: Link| link_pair(l)) == synced_pairs(
                old(store).links@,
                source_slug@,
                content@,
            ),
            final(store).only_links(old(store)),
            final(store).next_link_id == old(store).next_link_id + link_slugs(content@).filter(
                other_than(source_slug@),
            ).len(),
            final(store).next_link_id <= old(store).next_link_id + content@.len(),
    {
        let targets = parse_links(content);
        let ghost tv = targets@.map_values(|x: String| x@);
        proof {
            lemma_link_count(content@);
        }
        let ghost old_links = store.links@;
        let n = store.links.len();
        let mut kept: Vec<Link> = Vec::new();
        let mut i: usize = 0;
        while i < n
            invariant
                n == store.links@.len(),
                old_links == store.links@,
                0 <= i <= n,
                kept@ == old_links.take(i as int).filter(not_from(source_slug@)),
            decreases n - i,
        {
            proof {
                lemma_filter_step(old_links, not_from(source_slug@), i as int);
            }
            if !str_eq(store.links[i].source_slug.as_str(), source_slug) {
                kept.push(store.links[i].duplicate());
            }
            i = i + 1;
        }
        proof {
            assert(old_links.take(n as int) =~= old_links);
        }
        let now = now_unix();
        let ghost kept_pairs = kept@.map_values(|l: Link| link_pair(l));
        let mut next = store.next_link_id;
        let m = targets.len();
        assert(tv.take(0).filter(other_than(source_slug@)).len() == 0) by {
            reveal(Seq::filter);
        }
        let mut k: usize = 0;
        while k < m
            invariant
                m == targets@.len(),
                tv == targets@.map_values(|x: String| x@),
                tv == link_slugs(content@),
                tv.len() <= content@.len(),
                0 <= k <= m,
                next == old(store).next_link_id + tv.take(k as int).filter(other_than(source_slug@)).len(),
                tv.take(k as int).filter(other_than(source_slug@)).len() <= k,
                old(store).next_link_id + content@.len() < i64::MAX,
                kept_pairs.len() <= kept@.len(),
                kept@.map_values(|l: Link| link_pair(l)) == kept_pairs + tv.take(k as int).filter(
                    other_than(source_slug@),
                ).map_values(|t: Seq<char>| (source_slug@, t)),
            decreases m - k,
        {
            proof {
                lemma_filter_step(tv, other_than(source_slug@), k as int);
            }
            if !str_eq(targets[k].as_str(), source_slug) {
                let l = Link {
                    id: next,
                    source_slug: source_slug.to_owned(),
                    target_slug: targets[k].clone(),
                    created_at: now,
                };
                let ghost before = kept@;
                kept.push(l);
                next = next + 1;
                proof {
                    let f = tv.take(k as int).filter(other_than(source_slug@));
                    assert(f.push(tv[k as int]).map_values(|t: Seq<char>| (source_slug@, t))
                        =~= f.map_values(|t: Seq<char>| (source_slug@, t)).push((source_slug@, tv[k as int])));
                    assert(kept@.map_values(|l: Link| link_pair(l)) =~= before.map_values(|l: Link| link_pair(l)).push(link_pair(l)));
                }
            }
            k = k + 1;
        }
        proof {
            assert(tv.take(m as int) =~= tv);
        }
        store.links = kept;
        store.next_link_id = next;
    }

    /// Creates a note from `note`. Fails when the slug is taken.
    pub fn create_note(&self, store: &mut Store, note: NewNote) -> (r: Result<Note, ScribeError>)
        requires
            old(store).wf(),
        ensures
            final(store).wf(),
            r is Ok <==> !has_key(old(store).notes@, note.slug@) && old(store).notes.next() < i64::MAX,
            r matches Ok(n) ==> {
                &&& n.id == NoteId(old(store).notes.next())
                &&& n.slug == note.slug && n.title == note.title && n.content == note.content
                &&& n.updated_at == n.created_at
                &&& final(store).notes@ == old(store).notes@.push(n)
                &&& final(store).notes.next() == old(store).notes.next() + 1
                &&& final(store).projects == old(store).projects
                &&& final(store).tasks == old(store).tasks
                &&& final(store).todos == old(store).todos
                &&& final(store).entries == old(store).entries
                &&& final(store).reminders == old(store).reminders
                &&& final(store).captures == old(store).captures
                &&& final(store).links == old(store).links
                &&& final(store).next_link_id == old(store).next_link_id
            },
            r matches Err(e) ==> *final(store) == *old(store),
            r matches Err(e) ==> (e is DuplicateSlug <==> has_key(old(store).notes@, note.slug@)),
            r matches Err(e) ==> e is DuplicateSlug || e is IdsExhausted,
    {
        if store.notes.contains(note.slug.as_str()) {
            return Err(ScribeError::DuplicateSlug { entity: Entity::Note, slug: note.slug });
        }
        let id = store.notes.next_id();
        if id == i64::MAX {
            return Err(ScribeError::IdsExhausted);
        }
        let now = now_unix();
        let n = Note {
            id: NoteId(id),
            slug: note.slug,
            title: note.title,
            content: note.content,
            created_at: now,
            updated_at: now,
        };
        store.notes.insert(n.duplicate());
        Ok(n)
    }

    /// Saves `content` as the content of the note with slug `slug`, then
    /// brings its outbound links in step with the new content.
    pub fn save_content(&self, store: &mut Store, slug: &str, content: String) -> (r: Result<Note, ScribeError>)
        requires
            old(store).wf(),
            old(store).next_link_id + content@.len() < i64::MAX,
        ensures
            final(store).wf(),
            r is Ok <==> has_key(old(store).notes@, slug@),
            r matches Ok(n) ==> {
                let i = key_index(old(store).notes@, slug@);
                &&& n == with_content(old(store).notes@[i], content, n.updated_at)
                &&& final(store).notes@ == old(store).notes@.update(i, n)
                &&& final(store).links@.map_values(|l: Link| link_pair(l)) == synced_pairs(
                    old(store).links@,
                    slug@,
                    content@,
                )
                &&& final(store).projects == old(store).projects
                &&& final(store).tasks == old(store).tasks
                &&& final(store).todos == old(store).todos
            },
            r matches Err(e) ==> *final(store) == *old(store) && e is NotFound,
    {
        let i = match store.notes.find(slug) {
            Some(i) => i,
            None => {
                return Err(ScribeError::NotFound { entity: Entity::Note, slug: slug.to_owned() });
            },
        };
        let now = now_unix();
        let cur = store.notes.rows()[i].duplicate();
        let n = Note { content, updated_at: now, ..cur };
        proof {
            assert(n.key() == store.notes@[i as int].key());
            assert forall|j: int| 0 <= j < store.notes@.len() && j != i implies #[trigger] store.notes@[j].key() != n.key() by {
                assert(store.notes@[j].key() != store.notes@[i as int].key());
            }
        }
        store.notes.replace(i, n.duplicate());
        self.sync_links(store, slug, n.content.as_str());
        Ok(n)
    }

    /// Creates a note titled `title` holding `content`, with a slug made
    /// unique from the title, and links it to the notes its content names.
    pub fn write_note(&self, store: &mut Store, title: &str, content: &str) -> (r: Result<Note, ScribeError>)
        requires
            old(store).wf(),
            old(store).next_link_id + content@.len() < i64::MAX,
        ensures
            final(store).wf(),
            !has_key(old(store).notes@, slug_title(title@)) && old(store).notes.next()
                < i64::MAX ==> r is Ok,
            r matches Ok(n) ==> {
                &&& fresh_slug_for(old(store).notes@, slug_title(title@), n.slug@)
                &&& n.title@ == title@ && n.content@ == content@
                &&& final(store).notes@ == old(store).notes@.push(n)
                &&& final(store).notes.next() == old(store).notes.next() + 1
                &&& final(store).links@.map_values(|l: Link| link_pair(l)) == synced_pairs(
                    old(store).links@,
                    n.slug@,
                    content@,
                )
                &&& final(store).projects == old(store).projects
            },
            r matches Err(e) ==> *final(store) == *old(store),
    {
        let base = generate("", title);
        proof {
            reveal_strlit("");
            assert(base@ =~= slug_title(title@));
        }
        let slug = match unique_slug(&store.notes, base.as_str()) {
            Ok(s) => s,
            Err(e) => {
                return Err(e);
            },
        };
        let note = NewNote { slug, title: title.to_owned(), content: content.to_owned() };
        let n = match self.create_note(store, note) {
            Ok(n) => n,
            Err(e) => {
                return Err(e);
            },
        };
        self.sync_links(store, n.slug.as_str(), content);
        Ok(n)
    }

    /// Deletes the note with slug `slug` and the links it makes.
    pub fn delete_note(&self, store: &mut Store, slug: &str) -> (r: Result<(), ScribeError>)
        requires
            old(store).wf(),
        ensures
            final(store).wf(),
            r is Ok <==> has_key(old(store).notes@, slug@),
            r is Ok ==> {
                &&& final(store).notes@ == old(store).notes@.remove(key_index(old(store).notes@, slug@))
                &&& final(store).links@ == old(store).links@.filter(not_from(slug@))
                &&& final(store).projects == old(store).projects
            },
            r matches Err(e) ==> *final(store) == *old(store) && e is NotFound,
    {
        let i = match store.notes.find(slug) {
            Some(i) => i,
            None => {
                return Err(ScribeError::NotFound { entity: Entity::Note, slug: slug.to_owned() });
            },
        };
        store.notes.remove_at(i);
        let ghost old_links = store.links@;
        let n = store.links.len();
        let mut kept: Vec<Link> = Vec::new();
        let mut k: usize = 0;
        while k < n
            invariant
                n == store.links@.len(),
                old_links == store.links@,
                0 <= k <= n,
                kept@ == old_links.take(k as int).filter(not_from(slug@)),
            decreases n - k,
        {
            proof {
                lemma_filter_step(old_links, not_from(slug@), k as int);
            }
            if !str_eq(store.links[k].source_slug.as_str(), slug) {
                kept.push(store.links[k].duplicate());
            }
            k = k + 1;
        }
        proof {
            assert(old_links.take(n as int) =~= old_links);
        }
        store.links = kept;
        Ok(())
    }

    /// Notes whose title or content contains `query`, oldest first, at
    /// most [`SEARCH_LIMIT`] of them.
    pub fn search_notes(&self, store: &Store, query: &str) -> (r: Vec<Note>)
        requires
            store.wf(),
        ensures
            r@ == search_hits(store.notes@, query@),
    {
        let keep = |n: &Note| -> (b: bool)
            ensures
                b == mentions(query@)(*n),
            {
                contains_text(n.title.as_str(), query) || contains_text(n.content.as_str(), query)
            };
        let mut found = store.notes.select(keep, Ghost(mentions(query@)));
        let ghost all = found@;
        found.truncate(SEARCH_LIMIT);
        proof {
            if all.len() <= SEARCH_LIMIT {
                assert(all.take(all.len() as int) =~= all);
            }
        }
        found
    }

    /// The note with slug `slug`, if any.
    pub fn get(&self, store: &Store, slug: &str) -> (r: Option<Note>)
        requires
            store.wf(),
        ensures
            r == lookup(store.notes@, slug@),
    {
        store.notes.get(slug)
    }

    /// Every note, oldest first.
    pub fn list(&self, store: &Store) -> (r: Vec<Note>)
        requires
            store.wf(),
        ensures
            r@ == store.notes@,
    {
        let mut out: Vec<Note> = Vec::new();
        let mut i: usize = 0;
        while i < store.notes.rows().len()
            invariant
                0 <= i <= store.notes@.len(),
                out@ == store.notes@.take(i as int),
            decreases store.notes@.len() - i,
        {
            out.push(store.notes.rows()[i].duplicate());
            i = i + 1;
            assert(store.notes@.take(i as int) =~= store.notes@.take(i - 1).push(store.notes@[i - 1]));
        }
        assert(store.notes@.take(store.notes@.len() as int) =~= store.notes@);
        out
    }

    /// The links between notes.
    pub fn links_store<'a>(&self, store: &'a Store) -> (r: &'a Vec<Link>)
        ensures
            r@ == store.links@,
    {
        &store.links
    }
}

/// A content has no more link targets than characters.
proof fn lemma_link_count(content: Seq<char>)
    ensures
        link_slugs(content).len() <= content.len(),
{
    lemma_links_from_len(content, 0);
    lemma_first_occurrences_len(crate::domain::links::links_from(content, 0));
}

proof fn lemma_links_from_len(s: Seq<char>, i: int)
    requires
        0 <= i,
    ensures
        crate::domain::links::links_from(s, i).len() <= if i < s.len() { s.len() - i } else { 0 },
    decreases s.len() - i,
{
    if i < s.len() {
        if crate::domain::links::link_at(s, i) {
            crate::domain::links::lemma_run_end(s, i + 2);
            let j = crate::domain::links::run_end(s, i + 2) + 2;
            lemma_links_from_len(s, j);
        } else {
            lemma_links_from_len(s, i + 1);
        }
    }
}

proof fn lemma_first_occurrences_len(v: Seq<Seq<char>>)
    ensures
        crate::domain::links::first_occurrences(v).len() <= v.len(),
    decreases v.len(),
{
    if v.len() > 0 {
        lemma_first_occurrences_len(v.drop_last());
    }
}

/// A handle for NotesOps operations together with a fresh store to run them
/// against, seeded at the current time.
pub fn ops() -> (r: (NotesOps, Store))
    ensures
        r.1.wf(),
        r.1.is_fresh(r.1.projects@[0].created_at),
{
    let now = now_unix();
    (NotesOps::new(), Store::new(now))
}

} // verus!
