//! `scribe project …`: create, list, show, edit, archive, restore and
//! delete projects.

use vstd::prelude::*;
use crate::domain::{copy_opt_string, NewProject, Project, ProjectPatch, ProjectStatus};
use crate::error::{Entity, ScribeError};
use crate::ops::projects::{has_linked_items, patched_project, project_filter, slug_clash, ProjectOps};
use crate::store::table::{cascade, has_key, key_index, lookup};
use crate::store::{Archivable, Store};

verus! {

/// How a command's result is shown.
#[derive(Debug, Clone, Copy, PartialEq, Eq, Structural)]
pub enum OutputFormat {
    /// Human-readable text (the default).
    Text,
    /// Machine-readable JSON.
    Json,
}

impl Default for OutputFormat {
    fn default() -> (r: Self)
        ensures
            r == OutputFormat::Text,
    {
        OutputFormat::Text
    }
}

/// `scribe project`.
#[derive(Debug)]
pub struct ProjectCommand {
    /// The subcommand.
    pub subcommand: ProjectSubcommand,
}

/// The `scribe project` subcommands.
#[derive(Debug)]
pub enum ProjectSubcommand {
    /// Create a project.
    Add(ProjectAdd),
    /// List projects.
    List(ProjectList),
    /// Show a project.
    Show(ProjectShow),
    /// Edit a project.
    Edit(ProjectEdit),
    /// Archive a project and its items.
    Archive(ProjectArchive),
    /// Restore an archived project.
    Restore(ProjectRestore),
    /// Delete a project.
    Delete(ProjectDelete),
}

/// `scribe project add`.
#[derive(Debug)]
pub struct ProjectAdd {
    /// Unique kebab-case slug.
    pub slug: String,
    /// Human-readable name.
    pub name: String,
    /// Optional description.
    pub desc: Option<String>,
    /// Output format.
    pub output: OutputFormat,
}

/// `scribe project list`.
#[derive(Debug)]
pub struct ProjectList {
    /// Only projects with this status.
    pub status: Option<ProjectStatus>,
    /// Include archived projects.
    pub archived: bool,
    /// Output format.
    pub output: OutputFormat,
}

/// `scribe project show`.
#[derive(Debug)]
pub struct ProjectShow {
    /// The project's slug.
    pub slug: String,
    /// Output format.
    pub output: OutputFormat,
}

/// `scribe project edit`.
#[derive(Debug)]
pub struct ProjectEdit {
    /// The project's slug.
    pub slug: String,
    /// New slug.
    pub new_slug: Option<String>,
    /// New name.
    pub name: Option<String>,
    /// New description.
    pub desc: Option<String>,
    /// New status.
    pub status: Option<ProjectStatus>,
    /// Output format.
    pub output: OutputFormat,
}

/// `scribe project archive`.
#[derive(Debug)]
pub struct ProjectArchive {
    /// The project's slug.
    pub slug: String,
    /// Output format.
    pub output: OutputFormat,
}

/// `scribe project restore`.
#[derive(Debug)]
pub struct ProjectRestore {
    /// The project's slug.
    pub slug: String,
    /// Output format.
    pub output: OutputFormat,
}

/// `scribe project delete`.
#[derive(Debug)]
pub struct ProjectDelete {
    /// The project's slug.
    pub slug: String,
    /// Output format.
    pub output: OutputFormat,
}

/// What a project command produced.
#[derive(Debug)]
pub enum ProjectOutcome {
    /// The project created, shown, edited, archived or restored.
    Project(Project),
    /// The projects listed.
    Projects(Vec<Project>),
    /// The slug of the deleted project.
    Deleted(String),
}

/// The patch `scribe project edit` applies.
pub open spec fn edit_patch(a: ProjectEdit) -> ProjectPatch {
    ProjectPatch {
        slug: a.new_slug,
        name: a.name,
        description: a.desc,
        clear_description: false,
        status: a.status,
    }
}

/// What running `cmd` on `old`, leaving `new`, may produce.
pub open spec fn project_run_done(
    cmd: ProjectCommand,
    old: &Store,
    new: &Store,
    r: Result<ProjectOutcome, ScribeError>,
) -> bool {
    &&& new.wf()
    &&& (r is Err ==> *new == *old)
    &&& match cmd.subcommand {
        ProjectSubcommand::Add(a) => {
            &&& (r is Ok <==> !has_key(old.projects@, a.slug@) && old.projects.next() < i64::MAX)
            &&& (r matches Ok(o) ==> o matches ProjectOutcome::Project(p) && {
                &&& new.projects@ == old.projects@.push(p)
                &&& p.slug == a.slug && p.name == a.name && p.description == a.desc
                &&& p.status == ProjectStatus::Active && !p.is_reserved && p.archived_at is None
                &&& new.only_projects(old)
            })
        },
        ProjectSubcommand::List(a) => {
            &&& *new == *old
            &&& (r matches Ok(o) && o matches ProjectOutcome::Projects(v) && v@ == old.projects@.filter(
                project_filter(a.status, a.archived),
            ))
        },
        ProjectSubcommand::Show(a) => {
            &&& *new == *old
            &&& (r is Ok <==> has_key(old.projects@, a.slug@))
            &&& (r matches Ok(o) ==> o matches ProjectOutcome::Project(p) && lookup(old.projects@, a.slug@) == Some(p))
            &&& (r matches Err(e) ==> e is NotFound && e->NotFound_entity == Entity::Project && e->NotFound_slug@
                == a.slug@)
        },
        ProjectSubcommand::Edit(a) => {
            &&& (r is Ok <==> has_key(old.projects@, a.slug@) && !slug_clash(old.projects@, a.slug@, edit_patch(a)))
            &&& (r matches Ok(o) ==> o matches ProjectOutcome::Project(p) && {
                let i = key_index(old.projects@, a.slug@);
                &&& p == patched_project(old.projects@[i], edit_patch(a), p.updated_at)
                &&& new.projects@ == old.projects@.update(i, p)
                &&& new.only_projects(old)
            })
        },
        ProjectSubcommand::Archive(a) => {
            &&& (r is Ok <==> has_key(old.projects@, a.slug@) && !lookup(old.projects@, a.slug@)->0.is_reserved)
            &&& (r matches Ok(o) ==> o matches ProjectOutcome::Project(p) && {
                let i = key_index(old.projects@, a.slug@);
                let t = p.updated_at;
                let pid = old.projects@[i].id;
                &&& p == old.projects@[i].archived_as(Some(t), t)
                &&& new.projects@ == old.projects@.update(i, p)
                &&& new.tasks@ == cascade(old.tasks@, pid, t)
                &&& new.todos@ == cascade(old.todos@, pid, t)
                &&& new.entries@ == cascade(old.entries@, pid, t)
                &&& new.reminders@ == cascade(old.reminders@, pid, t)
            })
        },
        ProjectSubcommand::Restore(a) => {
            &&& (r is Ok <==> has_key(old.projects@, a.slug@))
            &&& (r matches Ok(o) ==> o matches ProjectOutcome::Project(p) && p.archived_at is None
                && new.only_projects(old))
        },
        ProjectSubcommand::Delete(a) => {
            &&& (r is Ok <==> has_key(old.projects@, a.slug@) && !lookup(old.projects@, a.slug@)->0.is_reserved
                && !has_linked_items(old, lookup(old.projects@, a.slug@)->0.id))
            &&& (r matches Ok(o) ==> o matches ProjectOutcome::Deleted(s) && s == a.slug && new.projects@
                == old.projects@.remove(key_index(old.projects@, a.slug@)))
        },
    }
}

/// Runs a `scribe project` command against the store.
pub fn run(cmd: &ProjectCommand, ops: &ProjectOps, store: &mut Store) -> (r: Result<ProjectOutcome, ScribeError>)
    requires
        old(store).wf(),
    ensures
        project_run_done(*cmd, old(store), final(store), r),
{
    match &cmd.subcommand {
        ProjectSubcommand::Add(a) => {
            let p = NewProject {
                slug: a.slug.clone(),
                name: a.name.clone(),
                description: copy_opt_string(&a.desc),
                status: ProjectStatus::Active,
            };
            match ops.create_project(store, p) {
                Ok(p) => Ok(ProjectOutcome::Project(p)),
                Err(e) => Err(e),
            }
        },
        ProjectSubcommand::List(a) => Ok(ProjectOutcome::Projects(ops.list_projects(store, a.status, a.archived))),
        ProjectSubcommand::Show(a) => match ops.get_project(store, a.slug.as_str()) {
            Some(p) => Ok(ProjectOutcome::Project(p)),
            None => Err(ScribeError::NotFound { entity: Entity::Project, slug: a.slug.clone() }),
        },
        ProjectSubcommand::Edit(a) => {
            let patch = ProjectPatch {
                slug: copy_opt_string(&a.new_slug),
                name: copy_opt_string(&a.name),
                description: copy_opt_string(&a.desc),
                clear_description: false,
                status: a.status,
            };
            match ops.update_project(store, a.slug.as_str(), patch) {
                Ok(p) => Ok(ProjectOutcome::Project(p)),
                Err(e) => Err(e),
            }
        },
        ProjectSubcommand::Archive(a) => match ops.archive_project(store, a.slug.as_str()) {
            Ok(p) => Ok(ProjectOutcome::Project(p)),
            Err(e) => Err(e),
        },
        ProjectSubcommand::Restore(a) => match ops.restore_project(store, a.slug.as_str()) {
            Ok(p) => Ok(ProjectOutcome::Project(p)),
            Err(e) => Err(e),
        },
        ProjectSubcommand::Delete(a) => match ops.delete_project(store, a.slug.as_str()) {
            Ok(()) => Ok(ProjectOutcome::Deleted(a.slug.clone())),
            Err(e) => Err(e),
        },
    }
}

} // verus!
