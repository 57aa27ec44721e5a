//! Task operations, with slugs generated as
//! `{project_slug}-task-{title_slug}` on creation.

use vstd::prelude::*;
use crate::clock::now_unix;
use crate::domain::slug::{generate, slug_title};
use crate::domain::{
    copy_opt_string, CivilDate, Project, ProjectId, Task, TaskId, TaskPatch, TaskPriority,
    TaskStatus,
};
use crate::error::{Entity, ScribeError};
use crate::ops::{fresh_slug_for, suffixes_taken, unique_slug};
use crate::store::table::{has_ident, has_key, key_index, lemma_with_ident, lookup, unlink_rows, with_ident};
use crate::store::{Archivable, Store};
use crate::text::{push_str, string_of, trim_chars, trimmed};

verus! {

/// Parameters for creating a task.
#[derive(Debug, Clone)]
pub struct CreateTask {
    /// Slug of the owning project.
    pub project_slug: String,
    /// Id of the owning project, as the caller knows it; the live id found
    /// by slug is used instead.
    pub project_id: ProjectId,
    /// Task title; leading and trailing whitespace is dropped.
    pub title: String,
    /// Optional detailed description.
    pub description: Option<String>,
    /// Initial status.
    pub status: TaskStatus,
    /// Urgency level.
    pub priority: TaskPriority,
    /// Optional due date.
    pub due_date: Option<CivilDate>,
    /// Optional parent task.
    pub parent_id: Option<TaskId>,
}

/// The slug a task titled `title` in the project with slug `project` starts
/// from.
pub open spec fn task_slug_base(project: Seq<char>, title: Seq<char>) -> Seq<char> {
    project + "-task-"@ + slug_title(title)
}

/// The slug of the project a new task goes to: a sub-task inherits the
/// project of its parent where the parent and its project exist; otherwise
/// it is the project the request names.
pub open spec fn task_project_slug(s: &Store, params: CreateTask) -> Seq<char> {
    match params.parent_id {
        Some(p) => if has_ident(s.tasks@, p.0) && has_ident(s.projects@, with_ident(s.tasks@, p.0).project_id.0) {
            with_ident(s.projects@, with_ident(s.tasks@, p.0).project_id.0).slug@
        } else {
            params.project_slug@
        },
        None => params.project_slug@,
    }
}

/// The owning project of a creation request.
pub open spec fn task_project(s: &Store, params: CreateTask) -> Project {
    lookup(s.projects@, task_project_slug(s, params))->0
}

/// The slug of the project a new task goes to, as [`task_project_slug`]
/// states.
fn project_slug_for(store: &Store, params: &CreateTask) -> (r: String)
    requires
        store.wf(),
    ensures
        r@ == task_project_slug(store, *params),
{
    match params.parent_id {
        Some(p) => match store.tasks.find_id(p.0) {
            Some(i) => {
                proof {
                    lemma_with_ident(store.tasks@, store.tasks.next(), p.0, i as int);
                }
                let pid = store.tasks.rows()[i].project_id;
                match store.projects.find_id(pid.0) {
                    Some(j) => {
                        proof {
                            lemma_with_ident(store.projects@, store.projects.next(), pid.0, j as int);
                        }
                        let q = store.projects.rows()[j].duplicate();
                        q.slug
                    },
                    None => params.project_slug.clone(),
                }
            },
            None => params.project_slug.clone(),
        },
        None => params.project_slug.clone(),
    }
}

/// The request names a non-empty title and an existing unarchived project.
pub open spec fn valid_task_request(s: &Store, params: CreateTask) -> bool {
    &&& trimmed(params.title@).len() > 0
    &&& has_key(s.projects@, task_project_slug(s, params))
    &&& task_project(s, params).archived_at is None
}

/// Whether a task passes the list filters.
pub open spec fn task_listed(
    t: Task,
    project_id: Option<ProjectId>,
    status: Option<TaskStatus>,
    priority: Option<TaskPriority>,
    include_archived: bool,
) -> bool {
    &&& (match project_id { Some(p) => t.project_id == p, None => true })
    &&& (match status { Some(x) => t.status == x, None => true })
    &&& (match priority { Some(x) => t.priority == x, None => true })
    &&& (include_archived || t.archived_at is None)
}

/// The task list filter as a predicate.
pub open spec fn task_filter(
    project_id: Option<ProjectId>,
    status: Option<TaskStatus>,
    priority: Option<TaskPriority>,
    include_archived: bool,
) -> spec_fn(Task) -> bool {
    |t: Task| task_listed(t, project_id, status, priority, include_archived)
}

/// Task `t` after `patch`, touched at `now`.
pub open spec fn patched_task(t: Task, patch: TaskPatch, now: i64) -> Task {
    Task {
        id: t.id,
        slug: t.slug,
        project_id: match patch.project_id { Some(p) => p, None => t.project_id },
        title: match patch.title { Some(x) => x, None => t.title },
        description: if patch.clear_description { None } else {
            match patch.description { Some(d) => Some(d), None => t.description }
        },
        status: match patch.status { Some(x) => x, None => t.status },
        priority: match patch.priority { Some(x) => x, None => t.priority },
        due_date: if patch.clear_due_date { None } else {
            match patch.due_date { Some(d) => Some(d), None => t.due_date }
        },
        parent_id: t.parent_id,
        archived_at: t.archived_at,
        created_at: t.created_at,
        updated_at: now,
    }
}

/// The patch moves the task to a project id that does not exist.
pub open spec fn task_patch_dangles(s: &Store, patch: TaskPatch) -> bool {
    match patch.project_id {
        Some(p) => !has_ident(s.projects@, p.0),
        None => false,
    }
}

/// Task operations with slug generation on create.
#[derive(Debug, Clone, Copy)]
pub struct TaskOps;

impl TaskOps {
    /// A handle for task operations.
    pub fn new() -> (r: TaskOps) {
        TaskOps
    }

    /// Creates a task in the project named by `params.project_slug` (or,
    /// for a sub-task, in its parent's project), with a
    /// slug made unique from `{project_slug}-task-{title_slug}`.
    pub fn create_task(&self, store: &mut Store, params: CreateTask) -> (r: Result<Task, ScribeError>)
        requires
            old(store).wf(),
        ensures
            final(store).wf(),
            r is Ok ==> valid_task_request(old(store), params),
            valid_task_request(old(store), params) && !has_key(
                old(store).tasks@,
                task_slug_base(task_project(old(store), params).slug@, trimmed(params.title@)),
            ) && old(store).tasks.next() < i64::MAX ==> r is Ok,
            r matches Ok(t) ==> {
                let p = task_project(old(store), params);
                &&& t.id == TaskId(old(store).tasks.next())
                &&& fresh_slug_for(
                    old(store).tasks@,
                    task_slug_base(p.slug@, trimmed(params.title@)),
                    t.slug@,
                )
                &&& t.project_id == p.id
                &&& t.title@ == trimmed(params.title@)
                &&& t.description == params.description
                &&& t.status == params.status
                &&& t.priority == params.priority
                &&& t.due_date == params.due_date
                &&& t.parent_id == params.parent_id
                &&& t.archived_at is None
                &&& t.updated_at == t.created_at
                &&& final(store).tasks@ == old(store).tasks@.push(t)
                &&& final(store).tasks.next() == old(store).tasks.next() + 1
                &&& final(store).only_tasks(old(store))
            },
            r matches Err(e) ==> *final(store) == *old(store),
            r matches Err(e) ==> (e is EmptyTitle <==> trimmed(params.title@).len() == 0),
            r matches Err(e) ==> (e is NotFound <==> trimmed(params.title@).len() > 0 && !has_key(
                old(store).projects@,
                task_project_slug(old(store), params),
            )),
            r matches Err(e) ==> (e is ProjectArchived <==> trimmed(params.title@).len() > 0
                && has_key(old(store).projects@, task_project_slug(old(store), params)) && task_project(
                old(store),
                params,
            ).archived_at is Some),
            r matches Err(e) ==> (e is Slug ==> has_key(
                old(store).tasks@,
                task_slug_base(task_project(old(store), params).slug@, trimmed(params.title@)),
            ) && suffixes_taken(
                old(store).tasks@,
                task_slug_base(task_project(old(store), params).slug@, trimmed(params.title@)),
            )),
            r matches Err(e) ==> (e is IdsExhausted ==> old(store).tasks.next() == i64::MAX),
            r matches Err(e) ==> e is EmptyTitle || e is NotFound || e is ProjectArchived
                || e is Slug || e is IdsExhausted,
    {
        let title = trim_chars(params.title.as_str());
        if title.len() == 0 {
            return Err(ScribeError::EmptyTitle);
        }
        let title = string_of(&title);
        let project_slug = project_slug_for(store, &params);
        let project = match store.projects.get(project_slug.as_str()) {
            Some(p) => p,
            None => {
                return Err(ScribeError::NotFound { entity: Entity::Project, slug: project_slug });
            },
        };
        if project.archived_at.is_some() {
            return Err(ScribeError::ProjectArchived { slug: project_slug, adding: Some(Entity::Task) });
        }
        let mut prefix: Vec<char> = Vec::new();
        push_str(&mut prefix, project.slug.as_str());
        push_str(&mut prefix, "-task-");
        let prefix = string_of(&prefix);
        let base = generate(prefix.as_str(), title.as_str());
        proof {
            assert(base@ =~= task_slug_base(project.slug@, trimmed(params.title@)));
        }
        let slug = match unique_slug(&store.tasks, base.as_str()) {
            Ok(s) => s,
            Err(e) => {
                return Err(e);
            },
        };
        let id = store.tasks.next_id();
        if id == i64::MAX {
            return Err(ScribeError::IdsExhausted);
        }
        let now = now_unix();
        let t = Task {
            id: TaskId(id),
            slug,
            project_id: project.id,
            title,
            description: params.description,
            status: params.status,
            priority: params.priority,
            due_date: params.due_date,
            parent_id: params.parent_id,
            archived_at: None,
            created_at: now,
            updated_at: now,
        };
        store.tasks.insert(t.duplicate());
        Ok(t)
    }

    /// The task with slug `slug`, if any.
    pub fn get_task(&self, store: &Store, slug: &str) -> (r: Option<Task>)
        requires
            store.wf(),
        ensures
            r == lookup(store.tasks@, slug@),
    {
        store.tasks.get(slug)
    }

    /// Tasks matching every given filter, leaving out archived ones unless
    /// `include_archived`.
    pub fn list_tasks(
        &self,
        store: &Store,
        project_id: Option<ProjectId>,
        status: Option<TaskStatus>,
        priority: Option<TaskPriority>,
        include_archived: bool,
    ) -> (r: Vec<Task>)
        requires
            store.wf(),
        ensures
            r@ == store.tasks@.filter(task_filter(project_id, status, priority, include_archived)),
    {
        let keep = |t: &Task| -> (b: bool)
            ensures
                b == task_listed(*t, project_id, status, priority, include_archived),
            {
                let p_ok = match project_id {
                    Some(p) => t.project_id == p,
                    None => true,
                };
                let s_ok = match status {
                    Some(x) => t.status == x,
                    None => true,
                };
                let q_ok = match priority {
                    Some(x) => t.priority == x,
                    None => true,
                };
                p_ok && s_ok && q_ok && (include_archived || t.archived_at.is_none())
            };
        store.tasks.select(keep, Ghost(task_filter(project_id, status, priority, include_archived)))
    }

    /// Applies `patch` to the task with slug `slug`.
    pub fn update_task(&self, store: &mut Store, slug: &str, patch: TaskPatch) -> (r: Result<
        Task,
        ScribeError,
    >)
        requires
            old(store).wf(),
        ensures
            final(store).wf(),
            r is Ok <==> has_key(old(store).tasks@, slug@) && !task_patch_dangles(old(store), patch),
            r matches Ok(t) ==> {
                let i = key_index(old(store).tasks@, slug@);
                &&& t == patched_task(old(store).tasks@[i], patch, t.updated_at)
                &&& final(store).tasks@ == old(store).tasks@.update(i, t)
                &&& final(store).only_tasks(old(store))
            },
            r matches Err(e) ==> *final(store) == *old(store),
            r matches Err(e) ==> (e is NotFound <==> !has_key(old(store).tasks@, slug@)),
            r matches Err(e) ==> e is NotFound || e is MissingProject,
    {
        let i = match store.tasks.find(slug) {
            Some(i) => i,
            None => {
                return Err(ScribeError::NotFound { entity: Entity::Task, slug: slug.to_owned() });
            },
        };
        if let Some(p) = patch.project_id {
            if store.projects.find_id(p.0).is_none() {
                return Err(ScribeError::MissingProject { id: p.0 });
            }
        }
        let now = now_unix();
        let cur = store.tasks.rows()[i].duplicate();
        let t = Task {
            id: cur.id,
            slug: cur.slug,
            project_id: match patch.project_id { Some(p) => p, None => cur.project_id },
            title: match patch.title { Some(x) => x, None => cur.title },
            description: if patch.clear_description { None } else {
                match patch.description { Some(d) => Some(d), None => cur.description }
            },
            status: match patch.status { Some(x) => x, None => cur.status },
            priority: match patch.priority { Some(x) => x, None => cur.priority },
            due_date: if patch.clear_due_date { None } else {
                match patch.due_date { Some(d) => Some(d), None => cur.due_date }
            },
            parent_id: cur.parent_id,
            archived_at: cur.archived_at,
            created_at: cur.created_at,
            updated_at: now,
        };
        store.tasks.replace(i, t.duplicate());
        Ok(t)
    }

    /// Marks the task with slug `slug` as done.
    pub fn mark_done(&self, store: &mut Store, slug: &str) -> (r: Result<Task, ScribeError>)
        requires
            old(store).wf(),
        ensures
            final(store).wf(),
            r is Ok <==> has_key(old(store).tasks@, slug@),
            r matches Ok(t) ==> {
                let i = key_index(old(store).tasks@, slug@);
                &&& t == patched_task(old(store).tasks@[i], TaskPatch::done_patch(), t.updated_at)
                &&& t.status == TaskStatus::Done
                &&& final(store).tasks@ == old(store).tasks@.update(i, t)
                &&& final(store).only_tasks(old(store))
            },
            r matches Err(e) ==> *final(store) == *old(store) && e is NotFound,
    {
        let patch = TaskPatch::done();
        self.update_task(store, slug, patch)
    }

    /// Archives the task with slug `slug`.
    pub fn archive_task(&self, store: &mut Store, slug: &str) -> (r: Result<Task, ScribeError>)
        requires
            old(store).wf(),
        ensures
            final(store).wf(),
            r is Ok <==> has_key(old(store).tasks@, slug@),
            r matches Ok(t) ==> {
                let i = key_index(old(store).tasks@, slug@);
                &&& t == old(store).tasks@[i].archived_as(Some(t.updated_at), t.updated_at)
                &&& final(store).tasks@ == old(store).tasks@.update(i, t)
                &&& final(store).only_tasks(old(store))
            },
            r matches Err(e) ==> *final(store) == *old(store) && e is NotFound,
    {
        let i = match store.tasks.find(slug) {
            Some(i) => i,
            None => {
                return Err(ScribeError::NotFound { entity: Entity::Task, slug: slug.to_owned() });
            },
        };
        let now = now_unix();
        store.tasks.set_archived_at(i, Some(now), now);
        Ok(store.tasks.rows()[i].duplicate())
    }

    /// Restores the archived task with slug `slug`.
    pub fn restore_task(&self, store: &mut Store, slug: &str) -> (r: Result<Task, ScribeError>)
        requires
            old(store).wf(),
        ensures
            final(store).wf(),
            r is Ok <==> has_key(old(store).tasks@, slug@),
            r matches Ok(t) ==> {
                let i = key_index(old(store).tasks@, slug@);
                &&& t == old(store).tasks@[i].archived_as(None, t.updated_at)
                &&& final(store).tasks@ == old(store).tasks@.update(i, t)
                &&& final(store).only_tasks(old(store))
            },
            r matches Err(e) ==> *final(store) == *old(store) && e is NotFound,
    {
        let i = match store.tasks.find(slug) {
            Some(i) => i,
            None => {
                return Err(ScribeError::NotFound { entity: Entity::Task, slug: slug.to_owned() });
            },
        };
        let now = now_unix();
        store.tasks.set_archived_at(i, None, now);
        Ok(store.tasks.rows()[i].duplicate())
    }

    /// Deletes the archived task with slug `slug`; a task that is not
    /// archived must be archived first. Time entries, reminders and sub-tasks
    /// that named the task name no task afterwards.
    pub fn delete_task(&self, store: &mut Store, slug: &str) -> (r: Result<(), ScribeError>)
        requires
            old(store).wf(),
        ensures
            final(store).wf(),
            r is Ok <==> has_key(old(store).tasks@, slug@) && lookup(old(store).tasks@, slug@)->0.archived_at
                is Some,
            r is Ok ==> {
                let i = key_index(old(store).tasks@, slug@);
                let gone = seq![old(store).tasks@[i].id];
                &&& final(store).tasks@ == unlink_rows(old(store).tasks@.remove(i), gone)
                &&& final(store).entries@ == unlink_rows(old(store).entries@, gone)
                &&& final(store).reminders@ == unlink_rows(old(store).reminders@, gone)
                &&& final(store).projects == old(store).projects
                &&& final(store).todos == old(store).todos
                &&& final(store).captures == old(store).captures
                &&& final(store).notes == old(store).notes
                &&& final(store).links == old(store).links
                &&& final(store).next_link_id == old(store).next_link_id
            },
            r matches Err(e) ==> *final(store) == *old(store),
            r matches Err(e) ==> (e is NotFound <==> !has_key(old(store).tasks@, slug@)),
            r matches Err(e) ==> (e is NotArchived <==> has_key(old(store).tasks@, slug@)),
    {
        let i = match store.tasks.find(slug) {
            Some(i) => i,
            None => {
                return Err(ScribeError::NotFound { entity: Entity::Task, slug: slug.to_owned() });
            },
        };
        proof {
            crate::store::table::lemma_key_index(store.tasks@, slug@, i as int);
        }
        if store.tasks.rows()[i].archived_at.is_none() {
            return Err(ScribeError::NotArchived { entity: Entity::Task, slug: slug.to_owned() });
        }
        let tid = store.tasks.rows()[i].id;
        store.tasks.remove_at(i);
        let gone: Vec<TaskId> = vec![tid];
        assert(gone@ =~= seq![old(store).tasks@[i as int].id]);
        store.tasks.unlink_tasks(&gone);
        store.entries.unlink_tasks(&gone);
        store.reminders.unlink_tasks(&gone);
        Ok(())
    }
}

/// A handle for TaskOps operations together with a fresh store to run them
/// against, seeded at the current time.
pub fn ops() -> (r: (TaskOps, Store))
    ensures
        r.1.wf(),
        r.1.is_fresh(r.1.projects@[0].created_at),
{
    let now = now_unix();
    (TaskOps::new(), Store::new(now))
}

} // verus!
