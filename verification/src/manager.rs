//! The managers: they assign identity and time to new entities, merge partial
//! updates, and hand persistence to a repository.
//!
//! A manager never retries and never commits partially: whatever the
//! repository reports is what the caller gets. The parts of each operation
//! that do not depend on the repository are functions of their own, with exact
//! contracts: [`new_scratch`], [`apply_update`], [`new_project`] and
//! [`stored`]. The contracts of the managers' own operations say which
//! answers of the repository the result comes from; to that end a manager
//! calls its repository's methods as function values.

use crate::error::CoreError;
use crate::ident::{fresh_id, is_hyphenated_hex};
use crate::model::{
    OutlineNode, OutlineNodeView, Project, ProjectSettings, ProjectSettingsView, ProjectView,
    Scratch, ScratchView,
};
use crate::repository::{
    project_delete_answer, project_list_answer, project_load_answer, project_save_answer,
    scratch_delete_answer, scratch_list_answer, scratch_load_answer, scratch_save_answer,
    ProjectRepository, ScratchRepository,
};
use crate::time::{Instant, Timestamp};
use vstd::prelude::*;

verus! {

/// The scratch that creation yields: the given fields under the given id, with
/// creation and modification both at `now`.
pub open spec fn created_scratch(
    id: Seq<char>,
    now: Instant,
    title: Seq<char>,
    content: Seq<char>,
    tags: Seq<Seq<char>>,
    source: Option<Seq<char>>,
) -> ScratchView {
    ScratchView { id, title, content, created_at: now, modified_at: now, tags, source }
}

/// The scratch that a partial update yields: each field that is supplied
/// replaces the stored one, each field that is not stays, and the modification
/// time becomes `now`. For `source`, the outer option says whether to change
/// the field and the inner one is the new value, so that a source can be
/// cleared.
pub open spec fn updated_scratch(
    current: ScratchView,
    title: Option<Seq<char>>,
    content: Option<Seq<char>>,
    tags: Option<Seq<Seq<char>>>,
    source: Option<Option<Seq<char>>>,
    now: Instant,
) -> ScratchView {
    ScratchView {
        id: current.id,
        title: match title {
            Some(t) => t,
            None => current.title,
        },
        content: match content {
            Some(c) => c,
            None => current.content,
        },
        created_at: current.created_at,
        modified_at: now,
        tags: match tags {
            Some(ts) => ts,
            None => current.tags,
        },
        source: match source {
            Some(s) => s,
            None => current.source,
        },
    }
}

/// The project that creation yields: the given title and settings under the
/// given id, an outline that is just the implicit root, and creation and
/// modification both at `now`.
pub open spec fn created_project(
    id: Seq<char>,
    root_id: Seq<char>,
    now: Instant,
    title: Seq<char>,
    template_id: Seq<char>,
    output_dir: Seq<char>,
) -> ProjectView {
    ProjectView {
        id,
        title,
        outline: OutlineNodeView::root(root_id),
        settings: ProjectSettingsView { template_id, output_dir },
        created_at: now,
        modified_at: now,
    }
}

/// Builds a new scratch from its id, the time of creation and its fields.
pub fn new_scratch(
    id: String,
    now: Timestamp,
    title: String,
    content: String,
    tags: Vec<String>,
    source: Option<String>,
) -> (scratch: Scratch)
    ensures
        scratch@ == created_scratch(
            id@,
            now@,
            title@,
            content@,
            tags.deep_view(),
            source.deep_view(),
        ),
{
    Scratch { id, title, content, created_at: now, modified_at: now, tags, source }
}

/// Merges a partial update into a stored scratch and stamps it with `now`.
pub fn apply_update(
    scratch: Scratch,
    title: Option<String>,
    content: Option<String>,
    tags: Option<Vec<String>>,
    source: Option<Option<String>>,
    now: Timestamp,
) -> (updated: Scratch)
    ensures
        updated@ == updated_scratch(
            scratch@,
            title.deep_view(),
            content.deep_view(),
            tags.deep_view(),
            source.deep_view(),
            now@,
        ),
{
    let mut updated = scratch;
    if let Some(t) = title {
        updated.title = t;
    }
    if let Some(c) = content {
        updated.content = c;
    }
    if let Some(ts) = tags {
        updated.tags = ts;
    }
    if let Some(s) = source {
        updated.source = s;
    }
    updated.modified_at = now;
    updated
}

/// Builds a new project from its id, the id of its root node, the time of
/// creation, its title and its settings.
pub fn new_project(
    id: String,
    root_id: String,
    now: Timestamp,
    title: String,
    template_id: String,
    output_dir: String,
) -> (project: Project)
    ensures
        project@ == created_project(id@, root_id@, now@, title@, template_id@, output_dir@),
{
    let outline = OutlineNode::root(root_id);
    let settings = ProjectSettings { template_id, output_dir };
    Project { id, title, outline, settings, created_at: now, modified_at: now }
}

/// What an operation returns once the repository has answered the save: the
/// entity if it was saved, the repository's failure otherwise.
pub open spec fn stored_as<T>(entity: T, saved: Result<(), CoreError>) -> Result<T, CoreError> {
    match saved {
        Ok(_) => Ok(entity),
        Err(e) => Err(e),
    }
}

/// What an operation returns once the repository has answered the save: the
/// entity if it was saved, the repository's failure otherwise.
pub fn stored<T>(entity: T, saved: Result<(), CoreError>) -> (res: Result<T, CoreError>)
    ensures
        res == stored_as(entity, saved),
{
    match saved {
        Ok(_) => Ok(entity),
        Err(e) => Err(e),
    }
}

/// An update that supplies only tags changes the tags and the modification
/// time and nothing else; in particular the creation time stays.
pub proof fn lemma_tags_only_update(current: ScratchView, tags: Seq<Seq<char>>, now: Instant)
    ensures
        updated_scratch(current, None, None, Some(tags), None, now) == (ScratchView {
            tags,
            modified_at: now,
            ..current
        }),
{
}

/// An update never changes the id or the creation time, and always sets the
/// modification time.
pub proof fn lemma_update_keeps_identity(
    current: ScratchView,
    title: Option<Seq<char>>,
    content: Option<Seq<char>>,
    tags: Option<Seq<Seq<char>>>,
    source: Option<Option<Seq<char>>>,
    now: Instant,
)
    ensures
        updated_scratch(current, title, content, tags, source, now).id == current.id,
        updated_scratch(current, title, content, tags, source, now).created_at
            == current.created_at,
        updated_scratch(current, title, content, tags, source, now).modified_at == now,
{
}

/// Creates, updates and retrieves scratches through a repository.
pub struct ScratchManager<R: ScratchRepository + ?Sized = dyn ScratchRepository> {
    repo: Box<R>,
}

impl<R: ScratchRepository + ?Sized> ScratchManager<R> {
    /// The repository through which the manager works.
    pub closed spec fn repository(&self) -> Box<R> {
        self.repo
    }

    pub fn new(repo: Box<R>) -> (manager: Self)
        ensures
            manager.repository() == repo,
    {
        Self { repo }
    }

    /// Creates a scratch under a fresh id, stamped with the current time, and
    /// hands it to the repository to be saved. Returns the scratch if the
    /// repository saved it, and the repository's failure otherwise.
    pub fn create(
        &self,
        title: String,
        content: String,
        tags: Vec<String>,
        source: Option<String>,
    ) -> (res: Result<Scratch, CoreError>)
        ensures
            exists|scratch: Scratch, saved: Result<(), CoreError>|
                {
                    &&& #[trigger] scratch_save_answer(&*self.repository(), &scratch, saved)
                    &&& is_hyphenated_hex(scratch@.id)
                    &&& scratch@ == created_scratch(
                        scratch@.id,
                        scratch@.created_at,
                        title@,
                        content@,
                        tags.deep_view(),
                        source.deep_view(),
                    )
                    &&& res == stored_as(scratch, saved)
                },
    {
        let id = fresh_id();
        let now = Timestamp::now();
        let scratch = new_scratch(id, now, title, content, tags, source);
        let save = R::save;
        let saved = save(&*self.repo, &scratch);
        assert(scratch_save_answer(&*self.repository(), &scratch, saved));
        stored(scratch, saved)
    }

    /// Asks the repository for the scratch stored under `id`, merges the
    /// supplied fields into it, stamps it with the current time and hands it
    /// back to the repository to be saved. Returns the repository's failure
    /// if the scratch cannot be loaded (`NotFound` when it is absent), in
    /// which case nothing is saved, or if it cannot be saved; otherwise the
    /// updated scratch.
    pub fn update(
        &self,
        id: String,
        title: Option<String>,
        content: Option<String>,
        tags: Option<Vec<String>>,
        source: Option<Option<String>>,
    ) -> (res: Result<Scratch, CoreError>)
        ensures
            exists|key: &str, loaded: Result<Scratch, CoreError>|
                {
                    &&& key@ == id@
                    &&& #[trigger] scratch_load_answer(&*self.repository(), key, loaded)
                    &&& match loaded {
                        Err(e) => res == Err::<Scratch, CoreError>(e),
                        Ok(current) => exists|updated: Scratch, saved: Result<(), CoreError>|
                            {
                                &&& #[trigger] scratch_save_answer(
                                    &*self.repository(),
                                    &updated,
                                    saved,
                                )
                                &&& updated@ == updated_scratch(
                                    current@,
                                    title.deep_view(),
                                    content.deep_view(),
                                    tags.deep_view(),
                                    source.deep_view(),
                                    updated@.modified_at,
                                )
                                &&& res == stored_as(updated, saved)
                            },
                    }
                },
    {
        let load = R::load;
        let key = id.as_str();
        let loaded = load(&*self.repo, key);
        assert(scratch_load_answer(&*self.repository(), key, loaded));
        let current = match loaded {
            Ok(scratch) => scratch,
            Err(e) => {
                return Err(e);
            },
        };
        let now = Timestamp::now();
        let updated = apply_update(current, title, content, tags, source, now);
        let save = R::save;
        let saved = save(&*self.repo, &updated);
        assert(scratch_save_answer(&*self.repository(), &updated, saved));
        stored(updated, saved)
    }

    /// Returns what the repository answers to loading `id`.
    pub fn load(&self, id: &str) -> (res: Result<Scratch, CoreError>)
        ensures
            scratch_load_answer(&*self.repository(), id, res),
    {
        let load = R::load;
        load(&*self.repo, id)
    }

    /// Returns what the repository answers to listing.
    pub fn list(&self) -> (res: Result<Vec<Scratch>, CoreError>)
        ensures
            scratch_list_answer(&*self.repository(), res),
    {
        let list = R::list;
        list(&*self.repo)
    }

    /// Returns what the repository answers to deleting `id`.
    pub fn delete(&self, id: &str) -> (res: Result<(), CoreError>)
        ensures
            scratch_delete_answer(&*self.repository(), id, res),
    {
        let delete = R::delete;
        delete(&*self.repo, id)
    }
}

/// Creates and retrieves projects through a repository.
pub struct ProjectManager<R: ProjectRepository + ?Sized = dyn ProjectRepository> {
    repo: Box<R>,
}

impl<R: ProjectRepository + ?Sized> ProjectManager<R> {
    /// The repository through which the manager works.
    pub closed spec fn repository(&self) -> Box<R> {
        self.repo
    }

    pub fn new(repo: Box<R>) -> (manager: Self)
        ensures
            manager.repository() == repo,
    {
        Self { repo }
    }

    /// Creates a project under a fresh id, with an outline that is just a
    /// root node under a fresh id of its own, stamped with the current time,
    /// and hands it to the repository to be saved. Returns the project if the
    /// repository saved it, and the repository's failure otherwise.
    pub fn create(&self, title: String, template_id: String, output_dir: String) -> (res: Result<
        Project,
        CoreError,
    >)
        ensures
            exists|project: Project, saved: Result<(), CoreError>|
                {
                    &&& #[trigger] project_save_answer(&*self.repository(), &project, saved)
                    &&& is_hyphenated_hex(project@.id)
                    &&& is_hyphenated_hex(project@.outline.id)
                    &&& project@ == created_project(
                        project@.id,
                        project@.outline.id,
                        project@.created_at,
                        title@,
                        template_id@,
                        output_dir@,
                    )
                    &&& res == stored_as(project, saved)
                },
    {
        let id = fresh_id();
        let now = Timestamp::now();
        let root_id = fresh_id();
        let project = new_project(id, root_id, now, title, template_id, output_dir);
        let save = R::save;
        let saved = save(&*self.repo, &project);
        assert(project_save_answer(&*self.repository(), &project, saved));
        stored(project, saved)
    }

    /// Returns what the repository answers to loading `id`.
    pub fn load(&self, id: &str) -> (res: Result<Project, CoreError>)
        ensures
            project_load_answer(&*self.repository(), id, res),
    {
        let load = R::load;
        load(&*self.repo, id)
    }

    /// Hands `project` to the repository to replace what is stored under its
    /// id, outline and all; returns what the repository answers.
    pub fn save(&self, project: &Project) -> (res: Result<(), CoreError>)
        ensures
            project_save_answer(&*self.repository(), project, res),
    {
        let save = R::save;
        save(&*self.repo, project)
    }

    /// Returns what the repository answers to listing.
    pub fn list(&self) -> (res: Result<Vec<Project>, CoreError>)
        ensures
            project_list_answer(&*self.repository(), res),
    {
        let list = R::list;
        list(&*self.repo)
    }

    /// Returns what the repository answers to deleting `id`.
    pub fn delete(&self, id: &str) -> (res: Result<(), CoreError>)
        ensures
            project_delete_answer(&*self.repository(), id, res),
    {
        let delete = R::delete;
        delete(&*self.repo, id)
    }
}

} // verus!
