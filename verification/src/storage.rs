//! Repositories on a file system: where each entity lives, how it is written
//! so that no reader ever sees half a file, and what the outcomes of reading
//! mean.
//!
//! Every entity is one JSON file:
//!
//! ```text
//! <root>/scratches/<scratch-id>.json
//! <root>/projects/<project-id>/project.json
//! <root>/templates/<template-id>.json
//! ```
//!
//! The repositories here perform no I/O and do no serialization. For a change
//! they return the [`FileOp`]s to perform; for a read they take what the
//! caller found, as a [`Fetched`] or as a list of [`Entry`] values, and
//! return the result of the operation. A file is never written in place: the
//! text goes to a sibling with the extension `tmp`, which is then renamed over
//! the final path.
//!
//! An id names a file or a directory, so only an id that is a file name is
//! stored: saving under any other id is refused with a storage failure before
//! anything is planned. Nothing can be stored under such an id, so loading it
//! gives `NotFound` and deleting it does nothing.

use crate::disk::{inside, plan_view, FileOp, FileOpView};
use crate::durability::{
    lemma_entity_files_are_listed, lemma_entity_paths_are_inside, lemma_temp_differs,
};
use crate::error::{CoreError, CoreErrorView};
use crate::model::{Project, Scratch, Template};
use crate::path::{
    extension_is, extension_of, is_file_name, join, joined, names_a_file, with_extension,
    with_extension_of,
};
use crate::workspace::{projects_dir_of, scratches_dir_of, templates_dir_of, Workspace};
use std::sync::Arc;
use vstd::prelude::*;
use vstd::string::*;

verus! {

/// What the caller found when it went to read one entity.
#[derive(Debug, Clone, PartialEq, Eq)]
pub enum Fetched<T> {
    /// Nothing exists at the entity's path.
    Missing,
    /// The file could not be read, or what it holds could not be decoded; the
    /// text is the message of the failure.
    Failed(String),
    /// The entity that the file holds.
    Found(T),
}

/// What the caller found for one entry of a directory that it enumerates.
#[derive(Debug, PartialEq, Eq)]
pub enum Entry<T> {
    /// The entry itself could not be examined; the text is the message.
    Broken(String),
    /// The entry is not an entity of the kind that is listed.
    Foreign,
    /// The entry is a candidate, and this is what loading it gave.
    Candidate(Result<T, CoreError>),
}

/// The file of the scratch `id` in the workspace rooted at `base`.
pub open spec fn scratch_path_of(base: Seq<char>, id: Seq<char>) -> Seq<char> {
    joined(scratches_dir_of(base), id + ".json"@)
}

/// The file of the template `id` in the workspace rooted at `base`.
pub open spec fn template_path_of(base: Seq<char>, id: Seq<char>) -> Seq<char> {
    joined(templates_dir_of(base), id + ".json"@)
}

/// The directory of the project `id` in the workspace rooted at `base`.
pub open spec fn project_dir_of(base: Seq<char>, id: Seq<char>) -> Seq<char> {
    joined(projects_dir_of(base), id)
}

/// The file of the project `id` in the workspace rooted at `base`.
pub open spec fn project_path_of(base: Seq<char>, id: Seq<char>) -> Seq<char> {
    joined(project_dir_of(base, id), "project.json"@)
}

/// The sibling to which the text for `path` is written first: the path with
/// its extension replaced by `tmp`, or with `.tmp` added where that is its
/// extension already, so that the sibling is never the path itself.
pub open spec fn temp_path_of(path: Seq<char>) -> Seq<char> {
    if extension_of(path) == Some("tmp"@) {
        path + ".tmp"@
    } else {
        with_extension_of(path, "tmp"@)
    }
}

/// The failure with which saving under `id` is refused when `id` is not a
/// file name.
pub open spec fn refused_id(id: Seq<char>) -> CoreErrorView {
    CoreErrorView::Storage("invalid id: "@ + id)
}

/// For an id that is a file name, the plan; for any other, the refusal.
pub open spec fn plan_for(id: Seq<char>, plan: Seq<FileOpView>) -> Result<
    Seq<FileOpView>,
    CoreErrorView,
> {
    if is_file_name(id) {
        Ok(plan)
    } else {
        Err(refused_id(id))
    }
}

/// Whether `res` is the executable form of the plan or refusal `expected`.
pub open spec fn plans(
    res: Result<Vec<FileOp>, CoreError>,
    expected: Result<Seq<FileOpView>, CoreErrorView>,
) -> bool {
    match res {
        Ok(ops) => expected == Ok::<Seq<FileOpView>, CoreErrorView>(plan_view(ops@)),
        Err(e) => expected == Err::<Seq<FileOpView>, CoreErrorView>(e@),
    }
}

/// What loading the entity `id` gives for what was fetched at its path. Under
/// an id that is not a file name nothing is stored, whatever was fetched.
pub open spec fn load_result_for<T>(id: Seq<char>, fetched: Fetched<T>, what: Seq<char>) -> Result<
    T,
    CoreErrorView,
> {
    if is_file_name(id) {
        load_result(fetched, what)
    } else {
        Err(CoreErrorView::NotFound(what))
    }
}

/// The two steps of an atomic write: the text goes to the sibling, and the
/// sibling is renamed over the final path.
pub open spec fn atomic_write_plan(path: Seq<char>, content: Seq<char>) -> Seq<FileOpView> {
    seq![
        FileOpView::Write { path: temp_path_of(path), content },
        FileOpView::Rename { from: temp_path_of(path), to: path },
    ]
}

/// Saving a project: its directory is created before the atomic write of its
/// file.
pub open spec fn project_save_plan(base: Seq<char>, id: Seq<char>, content: Seq<char>) -> Seq<
    FileOpView,
> {
    seq![FileOpView::CreateDirAll { path: project_dir_of(base, id) }] + atomic_write_plan(
        project_path_of(base, id),
        content,
    )
}

/// Removing the file at `path`, if there is one.
pub open spec fn file_removal_plan(path: Seq<char>, present: bool) -> Seq<FileOpView> {
    if present {
        seq![FileOpView::RemoveFile { path }]
    } else {
        Seq::empty()
    }
}

/// Removing the directory at `path` with all it holds, if there is one.
pub open spec fn dir_removal_plan(path: Seq<char>, present: bool) -> Seq<FileOpView> {
    if present {
        seq![FileOpView::RemoveDirAll { path }]
    } else {
        Seq::empty()
    }
}

/// What loading gives for what was fetched: the entity that was found; a
/// storage failure with the message of a failed read; `NotFound` naming
/// `what` when nothing was there.
pub open spec fn load_result<T>(fetched: Fetched<T>, what: Seq<char>) -> Result<T, CoreErrorView> {
    match fetched {
        Fetched::Missing => Err(CoreErrorView::NotFound(what)),
        Fetched::Failed(message) => Err(CoreErrorView::Storage(message@)),
        Fetched::Found(entity) => Ok(entity),
    }
}

/// What a listing gives that tolerates no failure: the entities of the
/// candidates in order, unless an entry is broken or a candidate failed to
/// load, in which case the first such failure is the result. Foreign entries
/// are passed over.
pub open spec fn strict_listing<T>(entries: Seq<Entry<T>>) -> Result<Seq<T>, CoreErrorView>
    decreases entries.len(),
{
    if entries.len() == 0 {
        Ok(Seq::empty())
    } else {
        match strict_listing(entries.drop_last()) {
            Err(e) => Err(e),
            Ok(items) => match entries.last() {
                Entry::Broken(message) => Err(CoreErrorView::Storage(message@)),
                Entry::Foreign => Ok(items),
                Entry::Candidate(Ok(entity)) => Ok(items.push(entity)),
                Entry::Candidate(Err(e)) => Err(e@),
            },
        }
    }
}

/// What a listing gives that passes over candidates which fail to load: the
/// entities of the candidates that loaded, in order, unless an entry is
/// broken, in which case the first such failure is the result.
pub open spec fn lenient_listing<T>(entries: Seq<Entry<T>>) -> Result<Seq<T>, CoreErrorView>
    decreases entries.len(),
{
    if entries.len() == 0 {
        Ok(Seq::empty())
    } else {
        match lenient_listing(entries.drop_last()) {
            Err(e) => Err(e),
            Ok(items) => match entries.last() {
                Entry::Broken(message) => Err(CoreErrorView::Storage(message@)),
                Entry::Foreign => Ok(items),
                Entry::Candidate(Ok(entity)) => Ok(items.push(entity)),
                Entry::Candidate(Err(e)) => Ok(items),
            },
        }
    }
}

/// Whether `entry` fails a strict listing: it is broken, or a candidate that
/// did not load.
pub open spec fn fails_strict<T>(entry: Entry<T>) -> bool {
    entry is Broken || entry matches Entry::Candidate(Err(_))
}

/// Whether `entry` fails a lenient listing: it is broken.
pub open spec fn fails_lenient<T>(entry: Entry<T>) -> bool {
    entry is Broken
}

/// Whether `res` is the executable form of `expected`.
pub open spec fn agrees<T>(res: Result<T, CoreError>, expected: Result<T, CoreErrorView>) -> bool {
    match res {
        Ok(value) => expected == Ok::<T, CoreErrorView>(value),
        Err(e) => expected == Err::<T, CoreErrorView>(e@),
    }
}

/// Whether `res` is the executable form of the listing `expected`.
pub open spec fn lists<T>(
    res: Result<Vec<T>, CoreError>,
    expected: Result<Seq<T>, CoreErrorView>,
) -> bool {
    match res {
        Ok(items) => expected == Ok::<Seq<T>, CoreErrorView>(items@),
        Err(e) => expected == Err::<Seq<T>, CoreErrorView>(e@),
    }
}

/// The plan for writing `content` to `path`, whatever the path, without ever
/// exposing a partial file: the text is written to a sibling that is not the
/// path, and the sibling is renamed over the path.
pub fn write_atomic(path: &str, content: String) -> (ops: Vec<FileOp>)
    ensures
        plan_view(ops@) == atomic_write_plan(path@, content@),
        ops@.len() == 2,
        ops@[0] matches FileOp::Write { path: written, .. } && written@ != path@,
{
    proof {
        lemma_temp_differs(path@);
    }
    let temp = if extension_is(path, "tmp") {
        String::from_str(path).concat(".tmp")
    } else {
        with_extension(path, "tmp")
    };
    let mut ops: Vec<FileOp> = Vec::new();
    ops.push(FileOp::Write { path: temp.clone(), content });
    ops.push(FileOp::Rename { from: temp, to: String::from_str(path) });
    assert(plan_view(ops@) =~= atomic_write_plan(path@, content@));
    ops
}

/// The plan for removing the file at `path`, given whether it exists.
fn remove_file(path: String, present: bool) -> (ops: Vec<FileOp>)
    ensures
        plan_view(ops@) == file_removal_plan(path@, present),
{
    let mut ops: Vec<FileOp> = Vec::new();
    if present {
        ops.push(FileOp::RemoveFile { path });
    }
    assert(plan_view(ops@) =~= file_removal_plan(path@, present));
    ops
}

/// The refusal of an id that is not a file name.
fn refuse(id: &str) -> (e: CoreError)
    ensures
        e@ == refused_id(id@),
{
    let mut message = String::from_str("invalid id: ");
    message.append(id);
    CoreError::Storage(message)
}

/// The `NotFound` failure for the entity of the given kind and id.
fn missing(kind: &str, id: &str) -> (e: CoreError)
    ensures
        e@ == CoreErrorView::NotFound(kind@ + " "@ + id@),
{
    let mut what = String::from_str(kind);
    what.append(" ");
    what.append(id);
    CoreError::NotFound(what)
}

/// The result of loading, from what was fetched; `kind` and `id` name the
/// entity in the `NotFound` failure.
fn loaded<T>(fetched: Fetched<T>, kind: &str, id: &str) -> (res: Result<T, CoreError>)
    ensures
        agrees(res, load_result_for(id@, fetched, kind@ + " "@ + id@)),
{
    if !names_a_file(id) {
        return Err(missing(kind, id));
    }
    match fetched {
        Fetched::Missing => Err(missing(kind, id)),
        Fetched::Failed(message) => Err(CoreError::Storage(message)),
        Fetched::Found(entity) => Ok(entity),
    }
}

/// Collects a listing in which the first failure of any kind is final.
pub fn collect_strict<T>(entries: Vec<Entry<T>>) -> (res: Result<Vec<T>, CoreError>)
    ensures
        lists(res, strict_listing(entries@)),
{
    let ghost all = entries@;
    let mut items: Vec<T> = Vec::new();
    for entry in it: entries
        invariant
            it.seq() == all,
            strict_listing(all.take(it.index() as int)) == Ok::<Seq<T>, CoreErrorView>(items@),
    {
        proof {
            let k = it.index() as int;
            assert(all.take(k + 1).drop_last() =~= all.take(k));
            assert(all.take(k + 1).last() == all[k]);
        }
        match entry {
            Entry::Broken(message) => {
                proof {
                    lemma_strict_failure_is_final(all, it.index() as int + 1);
                }
                return Err(CoreError::Storage(message));
            },
            Entry::Foreign => {},
            Entry::Candidate(Ok(entity)) => {
                items.push(entity);
            },
            Entry::Candidate(Err(e)) => {
                proof {
                    lemma_strict_failure_is_final(all, it.index() as int + 1);
                }
                return Err(e);
            },
        }
    }
    assert(all.take(all.len() as int) =~= all);
    Ok(items)
}

/// Collects a listing in which candidates that failed to load are passed
/// over.
pub fn collect_lenient<T>(entries: Vec<Entry<T>>) -> (res: Result<Vec<T>, CoreError>)
    ensures
        lists(res, lenient_listing(entries@)),
{
    let ghost all = entries@;
    let mut items: Vec<T> = Vec::new();
    for entry in it: entries
        invariant
            it.seq() == all,
            lenient_listing(all.take(it.index() as int)) == Ok::<Seq<T>, CoreErrorView>(items@),
    {
        proof {
            let k = it.index() as int;
            assert(all.take(k + 1).drop_last() =~= all.take(k));
            assert(all.take(k + 1).last() == all[k]);
        }
        match entry {
            Entry::Broken(message) => {
                proof {
                    lemma_lenient_failure_is_final(all, it.index() as int + 1);
                }
                return Err(CoreError::Storage(message));
            },
            Entry::Foreign => {},
            Entry::Candidate(Ok(entity)) => {
                items.push(entity);
            },
            Entry::Candidate(Err(_)) => {},
        }
    }
    assert(all.take(all.len() as int) =~= all);
    Ok(items)
}

/// Once a strict listing has failed, further entries do not change the
/// result: enumeration may stop at the first failure.
pub proof fn lemma_strict_failure_is_final<T>(entries: Seq<Entry<T>>, seen: int)
    requires
        0 <= seen <= entries.len(),
        strict_listing(entries.take(seen)) is Err,
    ensures
        strict_listing(entries) == strict_listing(entries.take(seen)),
    decreases entries.len() - seen,
{
    if seen < entries.len() {
        assert(entries.take(seen + 1).drop_last() =~= entries.take(seen));
        lemma_strict_failure_is_final(entries, seen + 1);
    } else {
        assert(entries.take(seen) =~= entries);
    }
}

/// Once a lenient listing has failed, further entries do not change the
/// result: enumeration may stop at the first broken entry.
pub proof fn lemma_lenient_failure_is_final<T>(entries: Seq<Entry<T>>, seen: int)
    requires
        0 <= seen <= entries.len(),
        lenient_listing(entries.take(seen)) is Err,
    ensures
        lenient_listing(entries) == lenient_listing(entries.take(seen)),
    decreases entries.len() - seen,
{
    if seen < entries.len() {
        assert(entries.take(seen + 1).drop_last() =~= entries.take(seen));
        lemma_lenient_failure_is_final(entries, seen + 1);
    } else {
        assert(entries.take(seen) =~= entries);
    }
}

impl<T> Entry<T> {
    /// The entry for a file that is a candidate and was read and decoded
    /// with the given outcome: a failure to read or to decode it is a storage
    /// failure with the message of that failure.
    pub fn from_read(outcome: Result<T, String>) -> (entry: Entry<T>)
        ensures
            match outcome {
                Ok(entity) => entry == Entry::Candidate(Ok::<T, CoreError>(entity)),
                Err(message) => entry == Entry::<T>::Candidate(
                    Err::<T, CoreError>(CoreError::Storage(message)),
                ),
            },
    {
        match outcome {
            Ok(entity) => Entry::Candidate(Ok(entity)),
            Err(message) => Entry::Candidate(Err(CoreError::Storage(message))),
        }
    }

    /// Whether this entry fails a listing that tolerates no failure, so that
    /// the enumeration can stop with it.
    pub fn ends_strict_listing(&self) -> (b: bool)
        ensures
            b == fails_strict(*self),
    {
        match self {
            Entry::Broken(_) => true,
            Entry::Foreign => false,
            Entry::Candidate(Ok(_)) => false,
            Entry::Candidate(Err(_)) => true,
        }
    }

    /// Whether this entry fails a listing that passes over candidates which
    /// did not load, so that the enumeration can stop with it.
    pub fn ends_lenient_listing(&self) -> (b: bool)
        ensures
            b == fails_lenient(*self),
    {
        match self {
            Entry::Broken(_) => true,
            _ => false,
        }
    }
}

/// A strict listing fails as soon as an entry fails it, and what follows that
/// entry does not matter.
pub proof fn lemma_strict_listing_stops<T>(entries: Seq<Entry<T>>, at: int)
    requires
        0 <= at < entries.len(),
        fails_strict(entries[at]),
    ensures
        strict_listing(entries) is Err,
        strict_listing(entries) == strict_listing(entries.take(at + 1)),
{
    assert(entries.take(at + 1).drop_last() =~= entries.take(at));
    assert(entries.take(at + 1).last() == entries[at]);
    lemma_strict_failure_is_final(entries, at + 1);
}

/// A lenient listing fails as soon as an entry fails it, and what follows
/// that entry does not matter.
pub proof fn lemma_lenient_listing_stops<T>(entries: Seq<Entry<T>>, at: int)
    requires
        0 <= at < entries.len(),
        fails_lenient(entries[at]),
    ensures
        lenient_listing(entries) is Err,
        lenient_listing(entries) == lenient_listing(entries.take(at + 1)),
{
    assert(entries.take(at + 1).drop_last() =~= entries.take(at));
    assert(entries.take(at + 1).last() == entries[at]);
    lemma_lenient_failure_is_final(entries, at + 1);
}

/// Whether the directory entry at `path` is a candidate when scratches or
/// templates are listed: its extension is `json`.
pub fn is_entity_file(path: &str) -> (b: bool)
    ensures
        b == (extension_of(path@) == Some("json"@)),
{
    extension_is(path, "json")
}

/// The repository of scratches in a workspace.
pub struct FilesystemScratchRepository {
    workspace: Arc<Workspace>,
}

impl FilesystemScratchRepository {
    /// The root of the workspace that the repository works in.
    pub closed spec fn root(&self) -> Seq<char> {
        self.workspace@
    }

    pub fn new(workspace: Arc<Workspace>) -> (repo: Self)
        ensures
            repo.root() == workspace@,
    {
        Self { workspace }
    }

    /// The file in which the scratch `id` is stored; none where `id` is not a
    /// file name. The file lies in the directory of the scratches and is one
    /// that a listing takes for a scratch.
    pub fn scratch_path(&self, id: &str) -> (path: Option<String>)
        ensures
            match path {
                Some(p) => {
                    &&& is_file_name(id@)
                    &&& p@ == scratch_path_of(self.root(), id@)
                    &&& inside(scratches_dir_of(self.root()), p@)
                    &&& extension_of(p@) == Some("json"@)
                },
                None => !is_file_name(id@),
            },
    {
        if !names_a_file(id) {
            return None;
        }
        proof {
            lemma_entity_paths_are_inside(self.root(), id@);
            lemma_entity_files_are_listed(self.root(), id@);
        }
        let mut name = String::from_str(id);
        name.append(".json");
        Some(join(self.workspace.scratches_dir().as_str(), name.as_str()))
    }

    /// The plan for storing `scratch`, whose serialized form is `json`, under
    /// its id, replacing what was stored there. An id that is not a file name
    /// is refused.
    pub fn save(&self, scratch: &Scratch, json: String) -> (res: Result<Vec<FileOp>, CoreError>)
        ensures
            plans(
                res,
                plan_for(
                    scratch.id@,
                    atomic_write_plan(scratch_path_of(self.root(), scratch.id@), json@),
                ),
            ),
    {
        match self.scratch_path(scratch.id.as_str()) {
            Some(path) => Ok(write_atomic(path.as_str(), json)),
            None => Err(refuse(scratch.id.as_str())),
        }
    }

    /// The result of loading the scratch `id`, from what was found at its
    /// path.
    pub fn load(&self, id: &str, fetched: Fetched<Scratch>) -> (res: Result<Scratch, CoreError>)
        ensures
            agrees(res, load_result_for(id@, fetched, "Scratch"@ + " "@ + id@)),
    {
        loaded(fetched, "Scratch", id)
    }

    /// The result of listing the scratches, from what was found for the
    /// entries of their directory, in the order of enumeration. A failure on
    /// any entry fails the listing.
    pub fn list(&self, entries: Vec<Entry<Scratch>>) -> (res: Result<Vec<Scratch>, CoreError>)
        ensures
            lists(res, strict_listing(entries@)),
    {
        collect_strict(entries)
    }

    /// The plan for deleting the scratch `id`, given whether its file
    /// exists. Nothing is to be done for a scratch that is not there, nor for
    /// an id that is not a file name.
    pub fn delete(&self, id: &str, present: bool) -> (ops: Vec<FileOp>)
        ensures
            plan_view(ops@) == file_removal_plan(
                scratch_path_of(self.root(), id@),
                present && is_file_name(id@),
            ),
    {
        match self.scratch_path(id) {
            Some(path) => remove_file(path, present),
            None => {
                let ops: Vec<FileOp> = Vec::new();
                assert(plan_view(ops@) =~= Seq::<FileOpView>::empty());
                ops
            },
        }
    }
}

/// The repository of projects in a workspace.
pub struct FilesystemProjectRepository {
    workspace: Arc<Workspace>,
}

impl FilesystemProjectRepository {
    /// The root of the workspace that the repository works in.
    pub closed spec fn root(&self) -> Seq<char> {
        self.workspace@
    }

    pub fn new(workspace: Arc<Workspace>) -> (repo: Self)
        ensures
            repo.root() == workspace@,
    {
        Self { workspace }
    }

    /// The directory of the project `id`; none where `id` is not a file
    /// name. The directory lies in the directory of the projects.
    pub fn project_dir(&self, id: &str) -> (dir: Option<String>)
        ensures
            match dir {
                Some(d) => {
                    &&& is_file_name(id@)
                    &&& d@ == project_dir_of(self.root(), id@)
                    &&& inside(projects_dir_of(self.root()), d@)
                },
                None => !is_file_name(id@),
            },
    {
        if !names_a_file(id) {
            return None;
        }
        proof {
            lemma_entity_paths_are_inside(self.root(), id@);
        }
        Some(join(self.workspace.projects_dir().as_str(), id))
    }

    /// The file in which the project `id` is stored; none where `id` is not a
    /// file name. The file lies in the project's directory.
    pub fn project_path(&self, id: &str) -> (path: Option<String>)
        ensures
            match path {
                Some(p) => {
                    &&& is_file_name(id@)
                    &&& p@ == project_path_of(self.root(), id@)
                    &&& inside(project_dir_of(self.root(), id@), p@)
                },
                None => !is_file_name(id@),
            },
    {
        proof {
            if is_file_name(id@) {
                lemma_entity_paths_are_inside(self.root(), id@);
            }
        }
        match self.project_dir(id) {
            Some(dir) => Some(join(dir.as_str(), "project.json")),
            None => None,
        }
    }

    /// The plan for storing `project`, whose serialized form is `json`, under
    /// its id, replacing what was stored there. The project's directory is
    /// created first. An id that is not a file name is refused.
    pub fn save(&self, project: &Project, json: String) -> (res: Result<Vec<FileOp>, CoreError>)
        ensures
            plans(res, plan_for(project.id@, project_save_plan(self.root(), project.id@, json@))),
    {
        let dir = match self.project_dir(project.id.as_str()) {
            Some(dir) => dir,
            None => {
                return Err(refuse(project.id.as_str()));
            },
        };
        let path = join(dir.as_str(), "project.json");
        let mut ops: Vec<FileOp> = Vec::new();
        ops.push(FileOp::CreateDirAll { path: dir });
        let mut write = write_atomic(path.as_str(), json);
        let ghost head = ops@;
        let ghost tail = write@;
        ops.append(&mut write);
        assert(ops@ == head + tail);
        assert(plan_view(ops@) =~= project_save_plan(self.root(), project.id@, json@));
        Ok(ops)
    }

    /// The result of loading the project `id`, from what was found at its
    /// path.
    pub fn load(&self, id: &str, fetched: Fetched<Project>) -> (res: Result<Project, CoreError>)
        ensures
            agrees(res, load_result_for(id@, fetched, "Project"@ + " "@ + id@)),
    {
        loaded(fetched, "Project", id)
    }

    /// The result of listing the projects, from what was found for the
    /// entries of their directory, in the order of enumeration. A
    /// subdirectory that does not load as a project is passed over; a failure
    /// on an entry itself fails the listing.
    pub fn list(&self, entries: Vec<Entry<Project>>) -> (res: Result<Vec<Project>, CoreError>)
        ensures
            lists(res, lenient_listing(entries@)),
    {
        collect_lenient(entries)
    }

    /// The plan for deleting the project `id`, given whether its directory
    /// exists. Nothing is to be done for a project that is not there, nor for
    /// an id that is not a file name.
    pub fn delete(&self, id: &str, present: bool) -> (ops: Vec<FileOp>)
        ensures
            plan_view(ops@) == dir_removal_plan(
                project_dir_of(self.root(), id@),
                present && is_file_name(id@),
            ),
    {
        let mut ops: Vec<FileOp> = Vec::new();
        if present {
            match self.project_dir(id) {
                Some(dir) => {
                    ops.push(FileOp::RemoveDirAll { path: dir });
                },
                None => {},
            }
        }
        assert(plan_view(ops@) =~= dir_removal_plan(
            project_dir_of(self.root(), id@),
            present && is_file_name(id@),
        ));
        ops
    }
}

/// The repository of templates in a workspace.
pub struct FilesystemTemplateRepository {
    workspace: Arc<Workspace>,
}

impl FilesystemTemplateRepository {
    /// The root of the workspace that the repository works in.
    pub closed spec fn root(&self) -> Seq<char> {
        self.workspace@
    }

    pub fn new(workspace: Arc<Workspace>) -> (repo: Self)
        ensures
            repo.root() == workspace@,
    {
        Self { workspace }
    }

    /// The file in which the template `id` is stored; none where `id` is not
    /// a file name. The file lies in the directory of the templates and is
    /// one that a listing takes for a template.
    pub fn template_path(&self, id: &str) -> (path: Option<String>)
        ensures
            match path {
                Some(p) => {
                    &&& is_file_name(id@)
                    &&& p@ == template_path_of(self.root(), id@)
                    &&& inside(templates_dir_of(self.root()), p@)
                    &&& extension_of(p@) == Some("json"@)
                },
                None => !is_file_name(id@),
            },
    {
        if !names_a_file(id) {
            return None;
        }
        proof {
            lemma_entity_paths_are_inside(self.root(), id@);
            lemma_entity_files_are_listed(self.root(), id@);
        }
        let mut name = String::from_str(id);
        name.append(".json");
        Some(join(self.workspace.templates_dir().as_str(), name.as_str()))
    }

    /// The plan for storing `template`, whose serialized form is `json`,
    /// under its id, replacing what was stored there. An id that is not a
    /// file name is refused.
    pub fn save(&self, template: &Template, json: String) -> (res: Result<Vec<FileOp>, CoreError>)
        ensures
            plans(
                res,
                plan_for(
                    template.id@,
                    atomic_write_plan(template_path_of(self.root(), template.id@), json@),
                ),
            ),
    {
        match self.template_path(template.id.as_str()) {
            Some(path) => Ok(write_atomic(path.as_str(), json)),
            None => Err(refuse(template.id.as_str())),
        }
    }

    /// The result of loading the template `id`, from what was found at its
    /// path.
    pub fn load(&self, id: &str, fetched: Fetched<Template>) -> (res: Result<Template, CoreError>)
        ensures
            agrees(res, load_result_for(id@, fetched, "Template"@ + " "@ + id@)),
    {
        loaded(fetched, "Template", id)
    }

    /// The result of listing the templates, from what was found for the
    /// entries of their directory, in the order of enumeration. A failure on
    /// any entry fails the listing.
    pub fn list(&self, entries: Vec<Entry<Template>>) -> (res: Result<Vec<Template>, CoreError>)
        ensures
            lists(res, strict_listing(entries@)),
    {
        collect_strict(entries)
    }

    /// The plan for deleting the template `id`, given whether its file
    /// exists. Nothing is to be done for a template that is not there, nor
    /// for an id that is not a file name.
    pub fn delete(&self, id: &str, present: bool) -> (ops: Vec<FileOp>)
        ensures
            plan_view(ops@) == file_removal_plan(
                template_path_of(self.root(), id@),
                present && is_file_name(id@),
            ),
    {
        match self.template_path(id) {
            Some(path) => remove_file(path, present),
            None => {
                let ops: Vec<FileOp> = Vec::new();
                assert(plan_view(ops@) =~= Seq::<FileOpView>::empty());
                ops
            },
        }
    }
}

} // verus!
