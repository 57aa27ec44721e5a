//! Todo operations: creation under an open project with slugs
//! `{project_slug}-todo-{title_slug}`, done flags, moves between projects,
//! and deletion of archived todos only.

use vstd::prelude::*;
use crate::clock::now_unix;
use crate::domain::slug::{generate, slug_title};
use crate::domain::{Project, ProjectId, Todo, TodoId, TodoPatch};
use crate::error::{Entity, ScribeError};
use crate::ops::{fresh_slug_for, suffixes_taken, unique_slug};
use crate::store::table::{has_ident, has_key, key_index, lookup};
use crate::store::{Archivable, Record, Store};
use crate::text::{push_str, string_of};

verus! {

/// The slug a todo titled `title` in project `project` starts from.
pub open spec fn todo_slug_base(project: Seq<char>, title: Seq<char>) -> Seq<char> {
    project + "-todo-"@ + slug_title(title)
}

/// The request names an existing unarchived project.
pub open spec fn valid_todo_request(s: &Store, project_slug: Seq<char>, title: Seq<char>) -> bool {
    &&& has_key(s.projects@, project_slug)
    &&& lookup(s.projects@, project_slug)->0.archived_at is None
}

/// Whether a todo passes the list filters.
pub open spec fn todo_listed(
    t: Todo,
    project_id: Option<ProjectId>,
    include_done: bool,
    include_archived: bool,
) -> bool {
    &&& (match project_id { Some(p) => t.project_id == p, None => true })
    &&& (include_done || !t.done)
    &&& (include_archived || t.archived_at is None)
}

/// The todo list filter as a predicate.
pub open spec fn todo_filter(
    project_id: Option<ProjectId>,
    include_done: bool,
    include_archived: bool,
) -> spec_fn(Todo) -> bool {
    |t: Todo| todo_listed(t, project_id, include_done, include_archived)
}

/// Todo `t` after `patch`, touched at `now`.
pub open spec fn patched_todo(t: Todo, patch: TodoPatch, now: i64) -> Todo {
    Todo {
        id: t.id,
        slug: t.slug,
        project_id: match patch.project_id { Some(p) => p, None => t.project_id },
        title: match patch.title { Some(x) => x, None => t.title },
        done: match patch.done { Some(d) => d, None => t.done },
        archived_at: t.archived_at,
        created_at: t.created_at,
        updated_at: now,
    }
}

/// The outcome of applying `patch` to the todo with slug `slug`.
pub open spec fn todo_update_done(
    old: &Store,
    new: &Store,
    slug: Seq<char>,
    patch: TodoPatch,
    r: Result<Todo, ScribeError>,
) -> bool {
    &&& new.wf()
    &&& (r is Ok <==> has_key(old.todos@, slug) && match patch.project_id {
        Some(p) => has_ident(old.projects@, p.0),
        None => true,
    })
    &&& (r matches Ok(t) ==> {
        let i = key_index(old.todos@, slug);
        &&& t == patched_todo(old.todos@[i], patch, t.updated_at)
        &&& new.todos@ == old.todos@.update(i, t)
        &&& new.only_todos(old)
    })
    &&& (r matches Err(e) ==> *new == *old && (e is NotFound <==> !has_key(old.todos@, slug)))
}

/// Todo operations with project validation and slug generation.
#[derive(Debug, Clone, Copy)]
pub struct TodoOps;

impl TodoOps {
    /// A handle for todo operations.
    pub fn new() -> (r: TodoOps) {
        TodoOps
    }

    /// Creates a todo titled `title` in the project with slug
    /// `project_slug`, which must exist and not be archived.
    pub fn create(&self, store: &mut Store, project_slug: &str, title: &str) -> (r: Result<
        Todo,
        ScribeError,
    >)
        requires
            old(store).wf(),
        ensures
            final(store).wf(),
            r is Ok ==> valid_todo_request(old(store), project_slug@, title@),
            valid_todo_request(old(store), project_slug@, title@) && !has_key(
                old(store).todos@,
                todo_slug_base(project_slug@, title@),
            ) && old(store).todos.next() < i64::MAX ==> r is Ok,
            r matches Ok(t) ==> {
                &&& t.id == TodoId(old(store).todos.next())
                &&& fresh_slug_for(old(store).todos@, todo_slug_base(project_slug@, title@), t.slug@)
                &&& t.project_id == lookup(old(store).projects@, project_slug@)->0.id
                &&& t.title@ == title@
                &&& !t.done
                &&& t.archived_at is None
                &&& t.updated_at == t.created_at
                &&& final(store).todos@ == old(store).todos@.push(t)
                &&& final(store).todos.next() == old(store).todos.next() + 1
                &&& final(store).only_todos(old(store))
            },
            r matches Err(e) ==> *final(store) == *old(store),
            r matches Err(e) ==> (e is NotFound <==> !has_key(old(store).projects@, project_slug@)),
            r matches Err(e) ==> (e is ProjectArchived <==> has_key(old(store).projects@, project_slug@)
                && lookup(old(store).projects@, project_slug@)->0.archived_at is Some),
            r matches Err(e) ==> (e is Slug ==> has_key(old(store).todos@, todo_slug_base(project_slug@, title@))
                && suffixes_taken(old(store).todos@, todo_slug_base(project_slug@, title@))),
            r matches Err(e) ==> (e is IdsExhausted ==> old(store).todos.next() == i64::MAX),
            r matches Err(e) ==> e is NotFound || e is ProjectArchived || e is Slug || e is IdsExhausted,
    {
        let project = match store.projects.get(project_slug) {
            Some(p) => p,
            None => {
                return Err(ScribeError::NotFound { entity: Entity::Project, slug: project_slug.to_owned() });
            },
        };
        if project.archived_at.is_some() {
            return Err(ScribeError::ProjectArchived {
                slug: project_slug.to_owned(),
                adding: Some(Entity::Todo),
            });
        }
        let mut prefix: Vec<char> = Vec::new();
        push_str(&mut prefix, project_slug);
        push_str(&mut prefix, "-todo-");
        let prefix = string_of(&prefix);
        let base = generate(prefix.as_str(), title);
        proof {
            assert(base@ =~= todo_slug_base(project_slug@, title@));
        }
        let slug = match unique_slug(&store.todos, base.as_str()) {
            Ok(s) => s,
            Err(e) => {
                return Err(e);
            },
        };
        let id = store.todos.next_id();
        if id == i64::MAX {
            return Err(ScribeError::IdsExhausted);
        }
        let now = now_unix();
        let t = Todo {
            id: TodoId(id),
            slug,
            project_id: project.id,
            title: title.to_owned(),
            done: false,
            archived_at: None,
            created_at: now,
            updated_at: now,
        };
        store.todos.insert(t.duplicate());
        Ok(t)
    }

    /// The todo with slug `slug`, if any.
    pub fn get(&self, store: &Store, slug: &str) -> (r: Option<Todo>)
        requires
            store.wf(),
        ensures
            r == lookup(store.todos@, slug@),
    {
        store.todos.get(slug)
    }

    /// Todos of the given project (any when `None`); done ones only when
    /// `include_done`, archived ones only when `include_archived`.
    pub fn list(
        &self,
        store: &Store,
        project_id: Option<ProjectId>,
        include_done: bool,
        include_archived: bool,
    ) -> (r: Vec<Todo>)
        requires
            store.wf(),
        ensures
            r@ == store.todos@.filter(todo_filter(project_id, include_done, include_archived)),
    {
        let keep = |t: &Todo| -> (b: bool)
            ensures
                b == todo_listed(*t, project_id, include_done, include_archived),
            {
                let p_ok = match project_id {
                    Some(p) => t.project_id == p,
                    None => true,
                };
                p_ok && (include_done || !t.done) && (include_archived || t.archived_at.is_none())
            };
        store.todos.select(keep, Ghost(todo_filter(project_id, include_done, include_archived)))
    }

    /// Applies `patch` to the todo with slug `slug`.
    pub fn update(&self, store: &mut Store, slug: &str, patch: TodoPatch) -> (r: Result<Todo, ScribeError>)
        requires
            old(store).wf(),
        ensures
            todo_update_done(old(store), final(store), slug@, patch, r),
    {
        let i = match store.todos.find(slug) {
            Some(i) => i,
            None => {
                return Err(ScribeError::NotFound { entity: Entity::Todo, slug: slug.to_owned() });
            },
        };
        if let Some(p) = patch.project_id {
            if store.projects.find_id(p.0).is_none() {
                return Err(ScribeError::MissingProject { id: p.0 });
            }
        }
        let now = now_unix();
        let cur = store.todos.rows()[i].duplicate();
        let t = Todo {
            id: cur.id,
            slug: cur.slug,
            project_id: match patch.project_id { Some(p) => p, None => cur.project_id },
            title: match patch.title { Some(x) => x, None => cur.title },
            done: match patch.done { Some(d) => d, None => cur.done },
            archived_at: cur.archived_at,
            created_at: cur.created_at,
            updated_at: now,
        };
        store.todos.replace(i, t.duplicate());
        Ok(t)
    }

    /// Marks the todo with slug `todo_slug` as done.
    pub fn mark_done(&self, store: &mut Store, todo_slug: &str) -> (r: Result<Todo, ScribeError>)
        requires
            old(store).wf(),
        ensures
            todo_update_done(old(store), final(store), todo_slug@, TodoPatch::spec_with_done(true), r),
            r matches Ok(t) ==> t.done,
    {
        self.update(store, todo_slug, TodoPatch::with_done(true))
    }

    /// Marks the todo with slug `todo_slug` as not done.
    pub fn mark_undone(&self, store: &mut Store, todo_slug: &str) -> (r: Result<Todo, ScribeError>)
        requires
            old(store).wf(),
        ensures
            todo_update_done(old(store), final(store), todo_slug@, TodoPatch::spec_with_done(false), r),
            r matches Ok(t) ==> !t.done,
    {
        self.update(store, todo_slug, TodoPatch::with_done(false))
    }

    /// Renames the todo with slug `todo_slug`.
    pub fn update_title(&self, store: &mut Store, todo_slug: &str, new_title: &str) -> (r: Result<
        Todo,
        ScribeError,
    >)
        requires
            old(store).wf(),
        ensures
            final(store).wf(),
            r is Ok <==> has_key(old(store).todos@, todo_slug@),
            r matches Ok(t) ==> {
                let i = key_index(old(store).todos@, todo_slug@);
                let o = old(store).todos@[i];
                &&& t.title@ == new_title@
                &&& t.id == o.id && t.slug == o.slug && t.project_id == o.project_id
                &&& t.done == o.done && t.archived_at == o.archived_at && t.created_at == o.created_at
                &&& final(store).todos@ == old(store).todos@.update(i, t)
                &&& final(store).only_todos(old(store))
            },
            r matches Err(e) ==> *final(store) == *old(store) && e is NotFound,
    {
        let patch = TodoPatch { title: Some(new_title.to_owned()), done: None, project_id: None };
        self.update(store, todo_slug, patch)
    }

    /// Moves the todo with slug `todo_slug` to the project with slug
    /// `dest_project_slug`, which must exist and not be archived.
    pub fn move_project(&self, store: &mut Store, todo_slug: &str, dest_project_slug: &str) -> (r:
        Result<Todo, ScribeError>)
        requires
            old(store).wf(),
        ensures
            final(store).wf(),
            r is Ok <==> has_key(old(store).projects@, dest_project_slug@) && lookup(
                old(store).projects@,
                dest_project_slug@,
            )->0.archived_at is None && has_key(old(store).todos@, todo_slug@),
            r matches Ok(t) ==> {
                let i = key_index(old(store).todos@, todo_slug@);
                let o = old(store).todos@[i];
                &&& t.project_id == lookup(old(store).projects@, dest_project_slug@)->0.id
                &&& t.id == o.id && t.slug == o.slug && t.title == o.title
                &&& t.done == o.done && t.archived_at == o.archived_at && t.created_at == o.created_at
                &&& final(store).todos@ == old(store).todos@.update(i, t)
                &&& final(store).only_todos(old(store))
            },
            r matches Err(e) ==> *final(store) == *old(store),
            r matches Err(e) ==> (e is ProjectArchived <==> has_key(old(store).projects@, dest_project_slug@)
                && lookup(old(store).projects@, dest_project_slug@)->0.archived_at is Some),
            r matches Err(e) ==> e is NotFound || e is ProjectArchived,
    {
        let project = match store.projects.get(dest_project_slug) {
            Some(p) => p,
            None => {
                return Err(ScribeError::NotFound {
                    entity: Entity::Project,
                    slug: dest_project_slug.to_owned(),
                });
            },
        };
        if project.archived_at.is_some() {
            return Err(ScribeError::ProjectArchived { slug: dest_project_slug.to_owned(), adding: None });
        }
        proof {
            let i = key_index(old(store).projects@, dest_project_slug@);
            assert(has_ident(old(store).projects@, project.id.0)) by {
                assert(old(store).projects@[i].ident() == project.id.0);
            }
        }
        let patch = TodoPatch { title: None, done: None, project_id: Some(project.id) };
        self.update(store, todo_slug, patch)
    }

    /// Archives the todo with slug `todo_slug`.
    pub fn archive(&self, store: &mut Store, todo_slug: &str) -> (r: Result<Todo, ScribeError>)
        requires
            old(store).wf(),
        ensures
            final(store).wf(),
            r is Ok <==> has_key(old(store).todos@, todo_slug@),
            r matches Ok(t) ==> {
                let i = key_index(old(store).todos@, todo_slug@);
                &&& t == old(store).todos@[i].archived_as(Some(t.updated_at), t.updated_at)
                &&& final(store).todos@ == old(store).todos@.update(i, t)
                &&& final(store).only_todos(old(store))
            },
            r matches Err(e) ==> *final(store) == *old(store) && e is NotFound,
    {
        let i = match store.todos.find(todo_slug) {
            Some(i) => i,
            None => {
                return Err(ScribeError::NotFound { entity: Entity::Todo, slug: todo_slug.to_owned() });
            },
        };
        let now = now_unix();
        store.todos.set_archived_at(i, Some(now), now);
        Ok(store.todos.rows()[i].duplicate())
    }

    /// Restores the archived todo with slug `todo_slug`.
    pub fn restore(&self, store: &mut Store, todo_slug: &str) -> (r: Result<Todo, ScribeError>)
        requires
            old(store).wf(),
        ensures
            final(store).wf(),
            r is Ok <==> has_key(old(store).todos@, todo_slug@),
            r matches Ok(t) ==> {
                let i = key_index(old(store).todos@, todo_slug@);
                &&& t == old(store).todos@[i].archived_as(None, t.updated_at)
                &&& final(store).todos@ == old(store).todos@.update(i, t)
                &&& final(store).only_todos(old(store))
            },
            r matches Err(e) ==> *final(store) == *old(store) && e is NotFound,
    {
        let i = match store.todos.find(todo_slug) {
            Some(i) => i,
            None => {
                return Err(ScribeError::NotFound { entity: Entity::Todo, slug: todo_slug.to_owned() });
            },
        };
        let now = now_unix();
        store.todos.set_archived_at(i, None, now);
        Ok(store.todos.rows()[i].duplicate())
    }

    /// Deletes the todo with slug `todo_slug`; only archived todos may be
    /// deleted.
    pub fn delete(&self, store: &mut Store, todo_slug: &str) -> (r: Result<(), ScribeError>)
        requires
            old(store).wf(),
        ensures
            final(store).wf(),
            r is Ok <==> has_key(old(store).todos@, todo_slug@) && lookup(
                old(store).todos@,
                todo_slug@,
            )->0.archived_at is Some,
            r is Ok ==> final(store).todos@ == old(store).todos@.remove(
                key_index(old(store).todos@, todo_slug@),
            ) && final(store).only_todos(old(store)),
            r matches Err(e) ==> *final(store) == *old(store),
            r matches Err(e) ==> (e is NotFound <==> !has_key(old(store).todos@, todo_slug@)),
            r matches Err(e) ==> (e is NotArchived <==> has_key(old(store).todos@, todo_slug@)),
    {
        let i = match store.todos.find(todo_slug) {
            Some(i) => i,
            None => {
                return Err(ScribeError::NotFound { entity: Entity::Todo, slug: todo_slug.to_owned() });
            },
        };
        proof {
            crate::store::table::lemma_key_index(store.todos@, todo_slug@, i as int);
        }
        if store.todos.rows()[i].archived_at.is_none() {
            return Err(ScribeError::NotArchived { entity: Entity::Todo, slug: todo_slug.to_owned() });
        }
        store.todos.remove_at(i);
        Ok(())
    }
}

} // verus!
