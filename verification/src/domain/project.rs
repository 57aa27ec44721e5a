//! `Project` entity and its lifecycle status.
//!
//! Projects are the top-level organisational unit. Every task, todo, time
//! entry and reminder belongs to exactly one project. The reserved
//! `quick-capture` project cannot be deleted or archived.

use vstd::prelude::*;
use crate::domain::{copy_opt_string, ProjectId};
use crate::text::{push_str, str_eq, string_of};

verus! {

/// Lifecycle status of a project.
#[derive(Debug, Clone, Copy, PartialEq, Eq, Hash, Structural)]
pub enum ProjectStatus {
    /// Project is actively worked on.
    Active,
    /// Project is temporarily paused.
    Paused,
    /// Project has been completed.
    Completed,
}

/// The lowercase name of a project status.
pub open spec fn project_status_name(s: ProjectStatus) -> Seq<char> {
    match s {
        ProjectStatus::Active => "active"@,
        ProjectStatus::Paused => "paused"@,
        ProjectStatus::Completed => "completed"@,
    }
}

/// The message for a string that names no project status.
pub open spec fn unknown_project_status(s: Seq<char>) -> Seq<char> {
    "unknown project status '"@ + s + "'"@
}

impl ProjectStatus {
    /// The lowercase name of the status.
    pub fn as_str(&self) -> (r: &'static str)
        ensures
            r@ == project_status_name(*self),
    {
        match self {
            ProjectStatus::Active => "active",
            ProjectStatus::Paused => "paused",
            ProjectStatus::Completed => "completed",
        }
    }

    /// The lowercase name of the status, as an owned string.
    pub fn to_string(&self) -> (r: String)
        ensures
            r@ == project_status_name(*self),
    {
        self.as_str().to_owned()
    }

    /// Parses a status from its exact lowercase name.
    pub fn parse(s: &str) -> (r: Result<ProjectStatus, String>)
        ensures
            r matches Ok(st) ==> project_status_name(st) == s@,
            r is Ok <==> (exists|st: ProjectStatus| #[trigger] project_status_name(st) == s@),
            r matches Err(m) ==> m@ == unknown_project_status(s@),
    {
        if str_eq(s, "active") {
            assert(project_status_name(ProjectStatus::Active) == s@);
            Ok(ProjectStatus::Active)
        } else if str_eq(s, "paused") {
            assert(project_status_name(ProjectStatus::Paused) == s@);
            Ok(ProjectStatus::Paused)
        } else if str_eq(s, "completed") {
            assert(project_status_name(ProjectStatus::Completed) == s@);
            Ok(ProjectStatus::Completed)
        } else {
            let mut out: Vec<char> = Vec::new();
            push_str(&mut out, "unknown project status '");
            push_str(&mut out, s);
            push_str(&mut out, "'");
            assert forall|st: ProjectStatus| project_status_name(st) != s@ by {
                match st {
                    ProjectStatus::Active => {},
                    ProjectStatus::Paused => {},
                    ProjectStatus::Completed => {},
                }
            }
            Err(string_of(&out))
        }
    }
}

impl std::str::FromStr for ProjectStatus {
    type Err = String;

    fn from_str(s: &str) -> (r: Result<ProjectStatus, String>)
        ensures
            r matches Ok(st) ==> project_status_name(st) == s@,
            r is Ok <==> (exists|st: ProjectStatus| #[trigger] project_status_name(st) == s@),
            r matches Err(m) ==> m@ == unknown_project_status(s@),
    {
        ProjectStatus::parse(s)
    }
}

/// A project record.
#[derive(Debug, Clone, PartialEq)]
pub struct Project {
    /// Internal numeric primary key.
    pub id: ProjectId,
    /// Unique kebab-case identifier, e.g. `payment-automation`.
    pub slug: String,
    /// Human-readable name.
    pub name: String,
    /// Optional free-text description.
    pub description: Option<String>,
    /// Current lifecycle status.
    pub status: ProjectStatus,
    /// When `true`, the project cannot be deleted or archived.
    pub is_reserved: bool,
    /// When archived; `None` means the project is active.
    pub archived_at: Option<i64>,
    /// Creation time.
    pub created_at: i64,
    /// Last-updated time.
    pub updated_at: i64,
}

impl Project {
    /// A field-by-field copy.
    pub fn duplicate(&self) -> (r: Project)
        ensures
            r == *self,
    {
        Project {
            id: self.id,
            slug: self.slug.clone(),
            name: self.name.clone(),
            description: copy_opt_string(&self.description),
            status: self.status,
            is_reserved: self.is_reserved,
            archived_at: self.archived_at,
            created_at: self.created_at,
            updated_at: self.updated_at,
        }
    }
}

/// Parameters required to create a new project.
#[derive(Debug, Clone)]
pub struct NewProject {
    /// Unique kebab-case slug chosen by the user.
    pub slug: String,
    /// Human-readable project name.
    pub name: String,
    /// Optional free-text description.
    pub description: Option<String>,
    /// Initial lifecycle status.
    pub status: ProjectStatus,
}

/// Partial update for mutable project fields; `None` leaves a field as is.
#[derive(Debug, Clone)]
pub struct ProjectPatch {
    /// New slug, if changing.
    pub slug: Option<String>,
    /// New name, if changing.
    pub name: Option<String>,
    /// New description; an empty string clears it.
    pub description: Option<String>,
    /// Whether to clear the description entirely.
    pub clear_description: bool,
    /// New status, if changing.
    pub status: Option<ProjectStatus>,
}

impl ProjectPatch {
    /// A patch that changes nothing.
    pub fn empty() -> (r: ProjectPatch)
        ensures
            r.slug is None,
            r.name is None,
            r.description is None,
            !r.clear_description,
            r.status is None,
    {
        ProjectPatch { slug: None, name: None, description: None, clear_description: false, status: None }
    }
}

} // verus!
