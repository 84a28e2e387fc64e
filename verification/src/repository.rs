//! The repository contracts: one interface per entity kind, with the same four
//! operations, independent of how entities are stored.
//!
//! `save` is an upsert keyed by the entity's id. `load` fails with `NotFound`
//! when no stored entity has the id. `list` returns every stored entity of the
//! kind, in no particular order. `delete` removes what is stored under the id
//! and succeeds when there is nothing to remove. What an implementation
//! returns depends on the storage behind it, so the methods carry no
//! postconditions. What a repository answers to a call can still be named:
//! the predicates below say that a result is one that the repository gave, and
//! the managers state in those terms what they return.

use crate::error::CoreError;
use crate::model::{Project, Scratch, Template};
use vstd::prelude::*;

verus! {

/// Storage of scratches.
pub trait ScratchRepository: Send + Sync {
    fn save(&self, scratch: &Scratch) -> Result<(), CoreError>;

    fn load(&self, id: &str) -> Result<Scratch, CoreError>;

    fn list(&self) -> Result<Vec<Scratch>, CoreError>;

    fn delete(&self, id: &str) -> Result<(), CoreError>;
}

/// Storage of projects.
pub trait ProjectRepository: Send + Sync {
    fn save(&self, project: &Project) -> Result<(), CoreError>;

    fn load(&self, id: &str) -> Result<Project, CoreError>;

    fn list(&self) -> Result<Vec<Project>, CoreError>;

    fn delete(&self, id: &str) -> Result<(), CoreError>;
}

/// Storage of templates.
pub trait TemplateRepository: Send + Sync {
    fn save(&self, template: &Template) -> Result<(), CoreError>;

    fn load(&self, id: &str) -> Result<Template, CoreError>;

    fn list(&self) -> Result<Vec<Template>, CoreError>;

    fn delete(&self, id: &str) -> Result<(), CoreError>;
}

/// Whether `res` is an answer of `repo` to saving `scratch`.
pub open spec fn scratch_save_answer<R: ScratchRepository + ?Sized>(
    repo: &R,
    scratch: &Scratch,
    res: Result<(), CoreError>,
) -> bool {
    call_ensures(R::save, (repo, scratch), res)
}

/// Whether `res` is an answer of `repo` to loading the scratch `id`.
pub open spec fn scratch_load_answer<R: ScratchRepository + ?Sized>(
    repo: &R,
    id: &str,
    res: Result<Scratch, CoreError>,
) -> bool {
    call_ensures(R::load, (repo, id), res)
}

/// Whether `res` is an answer of `repo` to listing the scratches.
pub open spec fn scratch_list_answer<R: ScratchRepository + ?Sized>(
    repo: &R,
    res: Result<Vec<Scratch>, CoreError>,
) -> bool {
    call_ensures(R::list, (repo,), res)
}

/// Whether `res` is an answer of `repo` to deleting the scratch `id`.
pub open spec fn scratch_delete_answer<R: ScratchRepository + ?Sized>(
    repo: &R,
    id: &str,
    res: Result<(), CoreError>,
) -> bool {
    call_ensures(R::delete, (repo, id), res)
}

/// Whether `res` is an answer of `repo` to saving `project`.
pub open spec fn project_save_answer<R: ProjectRepository + ?Sized>(
    repo: &R,
    project: &Project,
    res: Result<(), CoreError>,
) -> bool {
    call_ensures(R::save, (repo, project), res)
}

/// Whether `res` is an answer of `repo` to loading the project `id`.
pub open spec fn project_load_answer<R: ProjectRepository + ?Sized>(
    repo: &R,
    id: &str,
    res: Result<Project, CoreError>,
) -> bool {
    call_ensures(R::load, (repo, id), res)
}

/// Whether `res` is an answer of `repo` to listing the projects.
pub open spec fn project_list_answer<R: ProjectRepository + ?Sized>(
    repo: &R,
    res: Result<Vec<Project>, CoreError>,
) -> bool {
    call_ensures(R::list, (repo,), res)
}

/// Whether `res` is an answer of `repo` to deleting the project `id`.
pub open spec fn project_delete_answer<R: ProjectRepository + ?Sized>(
    repo: &R,
    id: &str,
    res: Result<(), CoreError>,
) -> bool {
    call_ensures(R::delete, (repo, id), res)
}

} // verus!
