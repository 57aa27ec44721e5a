//! How each entity is stored: its slug, id, archive time and owner.

use vstd::prelude::*;
use crate::domain::{CaptureItem, Note, Project, ProjectId, Reminder, Task, TaskId, TimeEntry, Todo};
use crate::store::table::{Archivable, Owned, Record, TaskLinked};

verus! {

impl Record for Project {
    open spec fn key(&self) -> Seq<char> {
        self.slug@
    }

    open spec fn ident(&self) -> i64 {
        self.id.0
    }

    fn slug_str(&self) -> (r: &str) {
        self.slug.as_str()
    }

    fn ident_value(&self) -> (r: i64) {
        self.id.0
    }

    fn copy_row(&self) -> (r: Self) {
        self.duplicate()
    }
}

impl Archivable for Project {
    open spec fn archived(&self) -> Option<i64> {
        self.archived_at
    }

    open spec fn archived_as(&self, at: Option<i64>, now: i64) -> Self {
        Project {
            id: self.id,
            slug: self.slug,
            name: self.name,
            description: self.description,
            status: self.status,
            is_reserved: self.is_reserved,
            archived_at: at,
            created_at: self.created_at,
            updated_at: now,
        }
    }

    fn archived_value(&self) -> (r: Option<i64>) {
        self.archived_at
    }

    fn set_archived(self, at: Option<i64>, now: i64) -> (r: Self) {
        Project {
            id: self.id,
            slug: self.slug,
            name: self.name,
            description: self.description,
            status: self.status,
            is_reserved: self.is_reserved,
            archived_at: at,
            created_at: self.created_at,
            updated_at: now,
        }
    }

    proof fn lemma_archived_as(&self, at: Option<i64>, now: i64) {
    }
}

impl Record for Task {
    open spec fn key(&self) -> Seq<char> {
        self.slug@
    }

    open spec fn ident(&self) -> i64 {
        self.id.0
    }

    fn slug_str(&self) -> (r: &str) {
        self.slug.as_str()
    }

    fn ident_value(&self) -> (r: i64) {
        self.id.0
    }

    fn copy_row(&self) -> (r: Self) {
        self.duplicate()
    }
}

impl Archivable for Task {
    open spec fn archived(&self) -> Option<i64> {
        self.archived_at
    }

    open spec fn archived_as(&self, at: Option<i64>, now: i64) -> Self {
        Task {
            id: self.id,
            slug: self.slug,
            project_id: self.project_id,
            title: self.title,
            description: self.description,
            status: self.status,
            priority: self.priority,
            due_date: self.due_date,
            parent_id: self.parent_id,
            archived_at: at,
            created_at: self.created_at,
            updated_at: now,
        }
    }

    fn archived_value(&self) -> (r: Option<i64>) {
        self.archived_at
    }

    fn set_archived(self, at: Option<i64>, now: i64) -> (r: Self) {
        Task {
            id: self.id,
            slug: self.slug,
            project_id: self.project_id,
            title: self.title,
            description: self.description,
            status: self.status,
            priority: self.priority,
            due_date: self.due_date,
            parent_id: self.parent_id,
            archived_at: at,
            created_at: self.created_at,
            updated_at: now,
        }
    }

    proof fn lemma_archived_as(&self, at: Option<i64>, now: i64) {
    }
}

impl Owned for Task {
    open spec fn owner(&self) -> ProjectId {
        self.project_id
    }

    fn owner_value(&self) -> (r: ProjectId) {
        self.project_id
    }

    proof fn lemma_owner_kept(&self, at: Option<i64>, now: i64) {
    }
}

impl Record for Todo {
    open spec fn key(&self) -> Seq<char> {
        self.slug@
    }

    open spec fn ident(&self) -> i64 {
        self.id.0
    }

    fn slug_str(&self) -> (r: &str) {
        self.slug.as_str()
    }

    fn ident_value(&self) -> (r: i64) {
        self.id.0
    }

    fn copy_row(&self) -> (r: Self) {
        self.duplicate()
    }
}

impl Archivable for Todo {
    open spec fn archived(&self) -> Option<i64> {
        self.archived_at
    }

    open spec fn archived_as(&self, at: Option<i64>, now: i64) -> Self {
        Todo {
            id: self.id,
            slug: self.slug,
            project_id: self.project_id,
            title: self.title,
            done: self.done,
            archived_at: at,
            created_at: self.created_at,
            updated_at: now,
        }
    }

    fn archived_value(&self) -> (r: Option<i64>) {
        self.archived_at
    }

    fn set_archived(self, at: Option<i64>, now: i64) -> (r: Self) {
        Todo {
            id: self.id,
            slug: self.slug,
            project_id: self.project_id,
            title: self.title,
            done: self.done,
            archived_at: at,
            created_at: self.created_at,
            updated_at: now,
        }
    }

    proof fn lemma_archived_as(&self, at: Option<i64>, now: i64) {
    }
}

impl Owned for Todo {
    open spec fn owner(&self) -> ProjectId {
        self.project_id
    }

    fn owner_value(&self) -> (r: ProjectId) {
        self.project_id
    }

    proof fn lemma_owner_kept(&self, at: Option<i64>, now: i64) {
    }
}

impl Record for TimeEntry {
    open spec fn key(&self) -> Seq<char> {
        self.slug@
    }

    open spec fn ident(&self) -> i64 {
        self.id.0
    }

    fn slug_str(&self) -> (r: &str) {
        self.slug.as_str()
    }

    fn ident_value(&self) -> (r: i64) {
        self.id.0
    }

    fn copy_row(&self) -> (r: Self) {
        self.duplicate()
    }
}

impl Archivable for TimeEntry {
    open spec fn archived(&self) -> Option<i64> {
        self.archived_at
    }

    open spec fn archived_as(&self, at: Option<i64>, now: i64) -> Self {
        TimeEntry {
            id: self.id,
            slug: self.slug,
            project_id: self.project_id,
            task_id: self.task_id,
            started_at: self.started_at,
            ended_at: self.ended_at,
            note: self.note,
            archived_at: at,
            created_at: self.created_at,
        }
    }

    fn archived_value(&self) -> (r: Option<i64>) {
        self.archived_at
    }

    fn set_archived(self, at: Option<i64>, now: i64) -> (r: Self) {
        TimeEntry {
            id: self.id,
            slug: self.slug,
            project_id: self.project_id,
            task_id: self.task_id,
            started_at: self.started_at,
            ended_at: self.ended_at,
            note: self.note,
            archived_at: at,
            created_at: self.created_at,
        }
    }

    proof fn lemma_archived_as(&self, at: Option<i64>, now: i64) {
    }
}

impl Owned for TimeEntry {
    open spec fn owner(&self) -> ProjectId {
        self.project_id
    }

    fn owner_value(&self) -> (r: ProjectId) {
        self.project_id
    }

    proof fn lemma_owner_kept(&self, at: Option<i64>, now: i64) {
    }
}

impl Record for Reminder {
    open spec fn key(&self) -> Seq<char> {
        self.slug@
    }

    open spec fn ident(&self) -> i64 {
        self.id.0
    }

    fn slug_str(&self) -> (r: &str) {
        self.slug.as_str()
    }

    fn ident_value(&self) -> (r: i64) {
        self.id.0
    }

    fn copy_row(&self) -> (r: Self) {
        self.duplicate()
    }
}

impl Archivable for Reminder {
    open spec fn archived(&self) -> Option<i64> {
        self.archived_at
    }

    open spec fn archived_as(&self, at: Option<i64>, now: i64) -> Self {
        Reminder {
            id: self.id,
            slug: self.slug,
            project_id: self.project_id,
            task_id: self.task_id,
            remind_at: self.remind_at,
            message: self.message,
            fired: self.fired,
            persistent: self.persistent,
            archived_at: at,
            created_at: self.created_at,
        }
    }

    fn archived_value(&self) -> (r: Option<i64>) {
        self.archived_at
    }

    fn set_archived(self, at: Option<i64>, now: i64) -> (r: Self) {
        Reminder {
            id: self.id,
            slug: self.slug,
            project_id: self.project_id,
            task_id: self.task_id,
            remind_at: self.remind_at,
            message: self.message,
            fired: self.fired,
            persistent: self.persistent,
            archived_at: at,
            created_at: self.created_at,
        }
    }

    proof fn lemma_archived_as(&self, at: Option<i64>, now: i64) {
    }
}

impl Owned for Reminder {
    open spec fn owner(&self) -> ProjectId {
        self.project_id
    }

    fn owner_value(&self) -> (r: ProjectId) {
        self.project_id
    }

    proof fn lemma_owner_kept(&self, at: Option<i64>, now: i64) {
    }
}

impl Record for CaptureItem {
    open spec fn key(&self) -> Seq<char> {
        self.slug@
    }

    open spec fn ident(&self) -> i64 {
        self.id.0
    }

    fn slug_str(&self) -> (r: &str) {
        self.slug.as_str()
    }

    fn ident_value(&self) -> (r: i64) {
        self.id.0
    }

    fn copy_row(&self) -> (r: Self) {
        self.duplicate()
    }
}

impl Record for Note {
    open spec fn key(&self) -> Seq<char> {
        self.slug@
    }

    open spec fn ident(&self) -> i64 {
        self.id.0
    }

    fn slug_str(&self) -> (r: &str) {
        self.slug.as_str()
    }

    fn ident_value(&self) -> (r: i64) {
        self.id.0
    }

    fn copy_row(&self) -> (r: Self) {
        self.duplicate()
    }
}

impl TaskLinked for Task {
    open spec fn task_ref(&self) -> Option<TaskId> {
        self.parent_id
    }

    open spec fn unlinked(&self) -> Self {
        Task {
            id: self.id,
            slug: self.slug,
            project_id: self.project_id,
            title: self.title,
            description: self.description,
            status: self.status,
            priority: self.priority,
            due_date: self.due_date,
            parent_id: None,
            archived_at: self.archived_at,
            created_at: self.created_at,
            updated_at: self.updated_at,
        }
    }

    fn task_ref_value(&self) -> (r: Option<TaskId>) {
        self.parent_id
    }

    fn unlink(self) -> (r: Self) {
        let mut r = self;
        r.parent_id = None;
        r
    }

    proof fn lemma_unlinked(&self) {
    }
}

impl TaskLinked for TimeEntry {
    open spec fn task_ref(&self) -> Option<TaskId> {
        self.task_id
    }

    open spec fn unlinked(&self) -> Self {
        TimeEntry {
            id: self.id,
            slug: self.slug,
            project_id: self.project_id,
            task_id: None,
            started_at: self.started_at,
            ended_at: self.ended_at,
            note: self.note,
            archived_at: self.archived_at,
            created_at: self.created_at,
        }
    }

    fn task_ref_value(&self) -> (r: Option<TaskId>) {
        self.task_id
    }

    fn unlink(self) -> (r: Self) {
        let mut r = self;
        r.task_id = None;
        r
    }

    proof fn lemma_unlinked(&self) {
    }
}

impl TaskLinked for Reminder {
    open spec fn task_ref(&self) -> Option<TaskId> {
        self.task_id
    }

    open spec fn unlinked(&self) -> Self {
        Reminder {
            id: self.id,
            slug: self.slug,
            project_id: self.project_id,
            task_id: None,
            remind_at: self.remind_at,
            message: self.message,
            fired: self.fired,
            persistent: self.persistent,
            archived_at: self.archived_at,
            created_at: self.created_at,
        }
    }

    fn task_ref_value(&self) -> (r: Option<TaskId>) {
        self.task_id
    }

    fn unlink(self) -> (r: Self) {
        let mut r = self;
        r.task_id = None;
        r
    }

    proof fn lemma_unlinked(&self) {
    }
}

} // verus!
