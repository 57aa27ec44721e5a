//! Project lifecycle: create, look up, list, edit, archive with cascade,
//! restore and delete.
//!
//! Reserved projects cannot be archived or deleted. Archiving a project
//! archives every task, todo, time entry and reminder that belongs to it.

use vstd::prelude::*;
use crate::clock::now_unix;
use crate::domain::{NewProject, Project, ProjectId, ProjectPatch, ProjectStatus, Task, TaskId};
use crate::error::{Entity, Refused, ScribeError};
use crate::store::table::{
    cascade, has_key, has_open_owner, key_index, lemma_filter_step, lookup, not_of, unlink_rows, Table,
};
use crate::store::{Archivable, Record, Store};
use crate::text::str_eq;

verus! {

/// The project row that creating `p` stores with id `id` at `now`.
pub open spec fn new_project_row(p: NewProject, id: i64, now: i64) -> Project {
    Project {
        id: ProjectId(id),
        slug: p.slug,
        name: p.name,
        description: p.description,
        status: p.status,
        is_reserved: false,
        archived_at: None,
        created_at: now,
        updated_at: now,
    }
}

/// The description a project keeps after `patch`.
pub open spec fn patched_description(old: Option<String>, patch: ProjectPatch) -> Option<String> {
    if patch.clear_description {
        None
    } else {
        match patch.description {
            Some(d) => if d@.len() == 0 { None } else { Some(d) },
            None => old,
        }
    }
}

/// Project `p` after `patch`, touched at `now`.
pub open spec fn patched_project(p: Project, patch: ProjectPatch, now: i64) -> Project {
    Project {
        id: p.id,
        slug: match patch.slug { Some(s) => s, None => p.slug },
        name: match patch.name { Some(n) => n, None => p.name },
        description: patched_description(p.description, patch),
        status: match patch.status { Some(s) => s, None => p.status },
        is_reserved: p.is_reserved,
        archived_at: p.archived_at,
        created_at: p.created_at,
        updated_at: now,
    }
}

/// The slug change of `patch` would collide with another project.
pub open spec fn slug_clash(rows: Seq<Project>, slug: Seq<char>, patch: ProjectPatch) -> bool {
    match patch.slug {
        Some(s) => s@ != slug && has_key(rows, s@),
        None => false,
    }
}

/// Whether a listed project passes the status and archive filters.
pub open spec fn project_listed(p: Project, status: Option<ProjectStatus>, include_archived: bool) -> bool {
    &&& (match status { Some(s) => p.status == s, None => true })
    &&& (include_archived || p.archived_at is None)
}

/// The project list filter as a predicate.
pub open spec fn project_filter(status: Option<ProjectStatus>, include_archived: bool) -> spec_fn(Project) -> bool {
    |p: Project| project_listed(p, status, include_archived)
}

/// Some task, todo, time entry or reminder of project `pid` is not
/// archived.
pub open spec fn has_linked_items(s: &Store, pid: ProjectId) -> bool {
    has_open_owner(s.tasks@, pid) || has_open_owner(s.todos@, pid) || has_open_owner(s.entries@, pid)
        || has_open_owner(s.reminders@, pid)
}

/// The predicate "belongs to project `pid`", on tasks.
pub open spec fn task_of(pid: ProjectId) -> spec_fn(Task) -> bool {
    |t: Task| t.project_id == pid
}

/// The ids of the tasks of project `pid`, in table order.
pub open spec fn task_ids_of(tasks: Seq<Task>, pid: ProjectId) -> Seq<TaskId> {
    tasks.filter(task_of(pid)).map_values(|t: Task| t.id)
}

/// The ids of the tasks of project `pid`.
fn owned_task_ids(tasks: &Table<Task>, pid: ProjectId) -> (r: Vec<TaskId>)
    ensures
        r@ == task_ids_of(tasks@, pid),
{
    let rows = tasks.rows();
    let mut out: Vec<TaskId> = Vec::new();
    let mut i: usize = 0;
    while i < rows.len()
        invariant
            rows@ == tasks@,
            0 <= i <= rows@.len(),
            out@ == rows@.take(i as int).filter(task_of(pid)).map_values(|t: Task| t.id),
        decreases rows@.len() - i,
    {
        proof {
            lemma_filter_step(rows@, task_of(pid), i as int);
        }
        if rows[i].project_id == pid {
            out.push(rows[i].id);
            proof {
                let f = rows@.take(i as int).filter(task_of(pid));
                assert(f.push(rows@[i as int]).map_values(|t: Task| t.id) =~= f.map_values(|t: Task| t.id).push(
                    rows@[i as int].id,
                ));
            }
        }
        i = i + 1;
    }
    assert(rows@.take(rows@.len() as int) =~= rows@);
    out
}

/// Project operations, including the cascade on archive.
#[derive(Debug, Clone, Copy)]
pub struct ProjectOps;

impl ProjectOps {
    /// A handle for project operations.
    pub fn new() -> (r: ProjectOps) {
        ProjectOps
    }

    /// Creates a project from `project`. Fails when the slug is taken.
    pub fn create_project(&self, store: &mut Store, project: NewProject) -> (r: Result<
        Project,
        ScribeError,
    >)
        requires
            old(store).wf(),
        ensures
            final(store).wf(),
            r is Ok <==> !has_key(old(store).projects@, project.slug@) && old(store).projects.next()
                < i64::MAX,
            r matches Ok(p) ==> {
                &&& p == new_project_row(project, old(store).projects.next(), p.created_at)
                &&& final(store).projects@ == old(store).projects@.push(p)
                &&& final(store).projects.next() == old(store).projects.next() + 1
                &&& final(store).only_projects(old(store))
            },
            r matches Err(e) ==> *final(store) == *old(store) && (e == (ScribeError::DuplicateSlug {
                entity: Entity::Project,
                slug: project.slug,
            }) <==> has_key(old(store).projects@, project.slug@)),
            r matches Err(e) ==> e is DuplicateSlug || e is IdsExhausted,
    {
        if store.projects.contains(project.slug.as_str()) {
            return Err(ScribeError::DuplicateSlug { entity: Entity::Project, slug: project.slug });
        }
        let id = store.projects.next_id();
        if id == i64::MAX {
            return Err(ScribeError::IdsExhausted);
        }
        let now = now_unix();
        let p = Project {
            id: ProjectId(id),
            slug: project.slug,
            name: project.name,
            description: project.description,
            status: project.status,
            is_reserved: false,
            archived_at: None,
            created_at: now,
            updated_at: now,
        };
        store.projects.insert(p.duplicate());
        Ok(p)
    }

    /// The project with slug `slug`, if any.
    pub fn get_project(&self, store: &Store, slug: &str) -> (r: Option<Project>)
        requires
            store.wf(),
        ensures
            r == lookup(store.projects@, slug@),
    {
        store.projects.get(slug)
    }

    /// Projects with the given status (any when `None`), leaving out
    /// archived ones unless `include_archived`.
    pub fn list_projects(
        &self,
        store: &Store,
        status: Option<ProjectStatus>,
        include_archived: bool,
    ) -> (r: Vec<Project>)
        requires
            store.wf(),
        ensures
            r@ == store.projects@.filter(project_filter(status, include_archived)),
    {
        let keep = |p: &Project| -> (b: bool)
            ensures
                b == project_listed(*p, status, include_archived),
            {
                let status_ok = match status {
                    Some(s) => p.status == s,
                    None => true,
                };
                status_ok && (include_archived || p.archived_at.is_none())
            };
        store.projects.select(keep, Ghost(project_filter(status, include_archived)))
    }

    /// Applies `patch` to the project with slug `slug`.
    pub fn update_project(&self, store: &mut Store, slug: &str, patch: ProjectPatch) -> (r: Result<
        Project,
        ScribeError,
    >)
        requires
            old(store).wf(),
        ensures
            final(store).wf(),
            r is Ok <==> has_key(old(store).projects@, slug@) && !slug_clash(
                old(store).projects@,
                slug@,
                patch,
            ),
            r matches Ok(p) ==> {
                let i = key_index(old(store).projects@, slug@);
                &&& p == patched_project(old(store).projects@[i], patch, p.updated_at)
                &&& final(store).projects@ == old(store).projects@.update(i, p)
                &&& final(store).projects.next() == old(store).projects.next()
                &&& final(store).only_projects(old(store))
            },
            r matches Err(e) ==> *final(store) == *old(store),
            r matches Err(e) ==> (e is NotFound <==> !has_key(old(store).projects@, slug@)),
            r matches Err(e) ==> e is NotFound || e is DuplicateSlug,
    {
        let i = match store.projects.find(slug) {
            Some(i) => i,
            None => {
                return Err(ScribeError::NotFound { entity: Entity::Project, slug: slug.to_owned() });
            },
        };
        let clash = match &patch.slug {
            Some(s) => !str_eq(s.as_str(), slug) && store.projects.contains(s.as_str()),
            None => false,
        };
        if clash {
            let s = match patch.slug {
                Some(s) => s,
                None => String::new(),
            };
            return Err(ScribeError::DuplicateSlug { entity: Entity::Project, slug: s });
        }
        let now = now_unix();
        let cur = store.projects.rows()[i].duplicate();
        let description = if patch.clear_description {
            None
        } else {
            match patch.description {
                Some(d) => if d.as_str().is_empty() { None } else { Some(d) },
                None => cur.description,
            }
        };
        proof {
            assert(description == patched_description(old(store).projects@[i as int].description, patch));
        }
        let p = Project {
            id: cur.id,
            slug: match patch.slug { Some(s) => s, None => cur.slug },
            name: match patch.name { Some(n) => n, None => cur.name },
            description,
            status: match patch.status { Some(s) => s, None => cur.status },
            is_reserved: cur.is_reserved,
            archived_at: cur.archived_at,
            created_at: cur.created_at,
            updated_at: now,
        };
        proof {
            assert forall|j: int|
                0 <= j < old(store).projects@.len() && j != i implies #[trigger] old(
                store,
            ).projects@[j].key() != p.key() by {
                if p.slug@ == slug@ {
                    assert(old(store).projects@[i as int].key() == slug@);
                }
            }
        }
        store.projects.replace(i, p.duplicate());
        Ok(p)
    }

    /// Archives a project and everything that belongs to it: its tasks,
    /// todos, time entries and reminders not yet archived are archived at
    /// the same time. Reserved projects cannot be archived.
    pub fn archive_project(&self, store: &mut Store, slug: &str) -> (r: Result<Project, ScribeError>)
        requires
            old(store).wf(),
        ensures
            final(store).wf(),
            r is Ok <==> has_key(old(store).projects@, slug@) && !lookup(
                old(store).projects@,
                slug@,
            )->0.is_reserved,
            r matches Ok(p) ==> {
                let i = key_index(old(store).projects@, slug@);
                let t = p.updated_at;
                let pid = old(store).projects@[i].id;
                &&& p == old(store).projects@[i].archived_as(Some(t), t)
                &&& final(store).projects@ == old(store).projects@.update(i, p)
                &&& final(store).tasks@ == cascade(old(store).tasks@, pid, t)
                &&& final(store).todos@ == cascade(old(store).todos@, pid, t)
                &&& final(store).entries@ == cascade(old(store).entries@, pid, t)
                &&& final(store).reminders@ == cascade(old(store).reminders@, pid, t)
                &&& final(store).captures == old(store).captures
                &&& final(store).notes == old(store).notes
                &&& final(store).links == old(store).links
            },
            r matches Err(e) ==> *final(store) == *old(store),
            r matches Err(e) ==> (e is NotFound <==> !has_key(old(store).projects@, slug@)),
            r matches Err(e) ==> (e is Reserved <==> has_key(old(store).projects@, slug@)),
    {
        let i = match store.projects.find(slug) {
            Some(i) => i,
            None => {
                return Err(ScribeError::NotFound { entity: Entity::Project, slug: slug.to_owned() });
            },
        };
        proof {
            crate::store::table::lemma_key_index(store.projects@, slug@, i as int);
        }
        if store.projects.rows()[i].is_reserved {
            return Err(ScribeError::Reserved { slug: slug.to_owned(), refused: Refused::Archive });
        }
        let pid = store.projects.rows()[i].id;
        let now = now_unix();
        store.tasks.archive_owned_by(pid, now);
        store.todos.archive_owned_by(pid, now);
        store.entries.archive_owned_by(pid, now);
        store.reminders.archive_owned_by(pid, now);
        store.projects.set_archived_at(i, Some(now), now);
        Ok(store.projects.rows()[i].duplicate())
    }

    /// Restores an archived project. Its items stay archived.
    pub fn restore_project(&self, store: &mut Store, slug: &str) -> (r: Result<Project, ScribeError>)
        requires
            old(store).wf(),
        ensures
            final(store).wf(),
            r is Ok <==> has_key(old(store).projects@, slug@),
            r matches Ok(p) ==> {
                let i = key_index(old(store).projects@, slug@);
                &&& p == old(store).projects@[i].archived_as(None, p.updated_at)
                &&& final(store).projects@ == old(store).projects@.update(i, p)
                &&& final(store).only_projects(old(store))
            },
            r matches Err(e) ==> *final(store) == *old(store) && e == (ScribeError::NotFound {
                entity: Entity::Project,
                slug: e->NotFound_slug,
            }) && e->NotFound_slug@ == slug@,
    {
        let i = match store.projects.find(slug) {
            Some(i) => i,
            None => {
                return Err(ScribeError::NotFound { entity: Entity::Project, slug: slug.to_owned() });
            },
        };
        let now = now_unix();
        store.projects.set_archived_at(i, None, now);
        Ok(store.projects.rows()[i].duplicate())
    }

    /// Deletes a project once its items are archived: reserved projects,
    /// and projects that still have a task, todo, time entry or reminder
    /// that is not archived, cannot be deleted. The archived items of the
    /// project are deleted with it, and whatever named one of its tasks
    /// names no task afterwards.
    pub fn delete_project(&self, store: &mut Store, slug: &str) -> (r: Result<(), ScribeError>)
        requires
            old(store).wf(),
        ensures
            final(store).wf(),
            r is Ok <==> {
                &&& has_key(old(store).projects@, slug@)
                &&& !lookup(old(store).projects@, slug@)->0.is_reserved
                &&& !has_linked_items(old(store), lookup(old(store).projects@, slug@)->0.id)
            },
            r is Ok ==> {
                let i = key_index(old(store).projects@, slug@);
                let pid = old(store).projects@[i].id;
                let gone = task_ids_of(old(store).tasks@, pid);
                &&& final(store).projects@ == old(store).projects@.remove(i)
                &&& final(store).tasks@ == unlink_rows(old(store).tasks@.filter(not_of(pid)), gone)
                &&& final(store).todos@ == old(store).todos@.filter(not_of(pid))
                &&& final(store).entries@ == unlink_rows(old(store).entries@.filter(not_of(pid)), gone)
                &&& final(store).reminders@ == unlink_rows(old(store).reminders@.filter(not_of(pid)), gone)
                &&& final(store).captures == old(store).captures
                &&& final(store).notes == old(store).notes
                &&& final(store).links == old(store).links
                &&& final(store).next_link_id == old(store).next_link_id
            },
            r matches Err(e) ==> *final(store) == *old(store),
            r matches Err(e) ==> (e is NotFound <==> !has_key(old(store).projects@, slug@)),
            r matches Err(e) ==> (e is Reserved <==> (has_key(old(store).projects@, slug@)
                && lookup(old(store).projects@, slug@)->0.is_reserved)),
    {
        let i = match store.projects.find(slug) {
            Some(i) => i,
            None => {
                return Err(ScribeError::NotFound { entity: Entity::Project, slug: slug.to_owned() });
            },
        };
        proof {
            crate::store::table::lemma_key_index(store.projects@, slug@, i as int);
        }
        if store.projects.rows()[i].is_reserved {
            return Err(ScribeError::Reserved { slug: slug.to_owned(), refused: Refused::Delete });
        }
        let pid = store.projects.rows()[i].id;
        if store.tasks.any_open_owned_by(pid) || store.todos.any_open_owned_by(pid)
            || store.entries.any_open_owned_by(pid) || store.reminders.any_open_owned_by(pid) {
            return Err(ScribeError::HasLinkedItems { slug: slug.to_owned() });
        }
        let gone = owned_task_ids(&store.tasks, pid);
        store.projects.remove_at(i);
        store.tasks.remove_owned_by(pid);
        store.todos.remove_owned_by(pid);
        store.entries.remove_owned_by(pid);
        store.reminders.remove_owned_by(pid);
        store.tasks.unlink_tasks(&gone);
        store.entries.unlink_tasks(&gone);
        store.reminders.unlink_tasks(&gone);
        Ok(())
    }
}

/// A handle for ProjectOps operations together with a fresh store to run them
/// against, seeded at the current time.
pub fn ops() -> (r: (ProjectOps, Store))
    ensures
        r.1.wf(),
        r.1.is_fresh(r.1.projects@[0].created_at),
{
    let now = now_unix();
    (ProjectOps::new(), Store::new(now))
}

/// A new active project whose slug and name are both `slug`, with no
/// description.
pub fn new_project(slug: &str) -> (r: NewProject)
    ensures
        r.slug@ == slug@,
        r.name@ == slug@,
        r.description is None,
        r.status == ProjectStatus::Active,
{
    NewProject {
        slug: slug.to_owned(),
        name: slug.to_owned(),
        description: None,
        status: ProjectStatus::Active,
    }
}

} // verus!
