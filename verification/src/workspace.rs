//! The workspace: the root directory under which everything is stored, with
//! one subdirectory per kind of entity.

use crate::disk::{plan_view, FileOp, FileOpView};
use crate::path::{join, joined};
use vstd::prelude::*;
use vstd::string::*;

verus! {

/// The root of the persisted layout.
#[derive(Debug, Clone, PartialEq, Eq)]
pub struct Workspace {
    base_path: String,
}

impl View for Workspace {
    type V = Seq<char>;

    /// The path of the root directory.
    closed spec fn view(&self) -> Seq<char> {
        self.base_path@
    }
}

/// The directory of the scratches in the workspace rooted at `base`.
pub open spec fn scratches_dir_of(base: Seq<char>) -> Seq<char> {
    joined(base, "scratches"@)
}

/// The directory of the projects in the workspace rooted at `base`.
pub open spec fn projects_dir_of(base: Seq<char>) -> Seq<char> {
    joined(base, "projects"@)
}

/// The directory of the templates in the workspace rooted at `base`.
pub open spec fn templates_dir_of(base: Seq<char>) -> Seq<char> {
    joined(base, "templates"@)
}

/// What setting up the workspace rooted at `base` takes: creating the three
/// directories, each with its missing ancestors, the root among them.
pub open spec fn setup_plan(base: Seq<char>) -> Seq<FileOpView> {
    seq![
        FileOpView::CreateDirAll { path: scratches_dir_of(base) },
        FileOpView::CreateDirAll { path: projects_dir_of(base) },
        FileOpView::CreateDirAll { path: templates_dir_of(base) },
    ]
}

impl Workspace {
    /// The workspace rooted at `base_path`.
    pub fn new(base_path: &str) -> (workspace: Workspace)
        ensures
            workspace@ == base_path@,
    {
        Workspace { base_path: String::from_str(base_path) }
    }

    /// The directory that holds the scratches.
    pub fn scratches_dir(&self) -> (dir: String)
        ensures
            dir@ == scratches_dir_of(self@),
    {
        join(self.base_path.as_str(), "scratches")
    }

    /// The directory that holds the projects.
    pub fn projects_dir(&self) -> (dir: String)
        ensures
            dir@ == projects_dir_of(self@),
    {
        join(self.base_path.as_str(), "projects")
    }

    /// The directory that holds the templates.
    pub fn templates_dir(&self) -> (dir: String)
        ensures
            dir@ == templates_dir_of(self@),
    {
        join(self.base_path.as_str(), "templates")
    }

    /// The operations that make sure the three directories exist. They can be
    /// performed any number of times.
    pub fn ensure_dirs(&self) -> (ops: Vec<FileOp>)
        ensures
            plan_view(ops@) == setup_plan(self@),
    {
        let mut ops: Vec<FileOp> = Vec::new();
        ops.push(FileOp::CreateDirAll { path: self.scratches_dir() });
        ops.push(FileOp::CreateDirAll { path: self.projects_dir() });
        ops.push(FileOp::CreateDirAll { path: self.templates_dir() });
        assert(plan_view(ops@) =~= setup_plan(self@));
        ops
    }
}

} // verus!
