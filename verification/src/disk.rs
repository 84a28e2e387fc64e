//! File operations as values, and a model of what they do.
//!
//! The storage layer does not perform I/O. It hands its caller the operations
//! to perform, in order, as [`FileOp`] values; the caller performs them and
//! stops at the first that fails. [`Disk`] is the model against which the
//! storage layer's plans are judged: which files hold which text, and which
//! directories exist. Paths are compared as texts.

use crate::path::joined;
use vstd::prelude::*;

verus! {

/// One operation on the file system.
#[derive(Debug, Clone, PartialEq, Eq)]
pub enum FileOp {
    /// Create the directory and every missing ancestor.
    CreateDirAll { path: String },
    /// Write `content` to the file at `path`, replacing what it held.
    Write { path: String, content: String },
    /// Move the file at `from` to `to` in one step, replacing what was there.
    Rename { from: String, to: String },
    /// Remove the file.
    RemoveFile { path: String },
    /// Remove the directory with everything in it.
    RemoveDirAll { path: String },
}

/// The mathematical content of a [`FileOp`].
pub enum FileOpView {
    CreateDirAll { path: Seq<char> },
    Write { path: Seq<char>, content: Seq<char> },
    Rename { from: Seq<char>, to: Seq<char> },
    RemoveFile { path: Seq<char> },
    RemoveDirAll { path: Seq<char> },
}

impl View for FileOp {
    type V = FileOpView;

    open spec fn view(&self) -> FileOpView {
        match *self {
            FileOp::CreateDirAll { path } => FileOpView::CreateDirAll { path: path@ },
            FileOp::Write { path, content } => FileOpView::Write { path: path@, content: content@ },
            FileOp::Rename { from, to } => FileOpView::Rename { from: from@, to: to@ },
            FileOp::RemoveFile { path } => FileOpView::RemoveFile { path: path@ },
            FileOp::RemoveDirAll { path } => FileOpView::RemoveDirAll { path: path@ },
        }
    }
}

/// The contents of a plan, in order.
pub open spec fn plan_view(ops: Seq<FileOp>) -> Seq<FileOpView> {
    ops.map_values(|op: FileOp| op@)
}

/// Whether `path` lies somewhere below the directory `dir`.
pub open spec fn inside(dir: Seq<char>, path: Seq<char>) -> bool {
    let prefix = joined(dir, Seq::<char>::empty());
    prefix.len() < path.len() && path.take(prefix.len() as int) == prefix
}

/// Whether `dir` is a directory on the way to `path`: a proper beginning of
/// it that ends in a separator or is followed by one.
pub open spec fn is_ancestor(dir: Seq<char>, path: Seq<char>) -> bool {
    &&& 0 < dir.len() < path.len()
    &&& path.take(dir.len() as int) == dir
    &&& (dir.last() == '/' || path[dir.len() as int] == '/')
}

/// The state of the file system as far as the storage layer is concerned.
pub struct Disk {
    /// The text of every file, by path.
    pub files: Map<Seq<char>, Seq<char>>,
    /// The directories that exist.
    pub dirs: Set<Seq<char>>,
}

impl Disk {
    /// The disk after `op` has been performed in full.
    pub open spec fn apply(self, op: FileOpView) -> Disk {
        match op {
            FileOpView::CreateDirAll { path } => Disk {
                dirs: self.dirs.union(Set::new(|d: Seq<char>| d == path || is_ancestor(d, path))),
                ..self
            },
            FileOpView::Write { path, content } => Disk {
                files: self.files.insert(path, content),
                ..self
            },
            FileOpView::Rename { from, to } => if self.files.contains_key(from) {
                Disk { files: self.files.remove(from).insert(to, self.files[from]), ..self }
            } else {
                self
            },
            FileOpView::RemoveFile { path } => Disk { files: self.files.remove(path), ..self },
            FileOpView::RemoveDirAll { path } => Disk {
                files: self.files.restrict(Set::new(|p: Seq<char>| !inside(path, p))),
                dirs: self.dirs.filter(|d: Seq<char>| d != path && !inside(path, d)),
            },
        }
    }

    /// The disk after every operation of `ops` has been performed, in order.
    pub open spec fn run(self, ops: Seq<FileOpView>) -> Disk
        decreases ops.len(),
    {
        if ops.len() == 0 {
            self
        } else {
            self.run(ops.drop_last()).apply(ops.last())
        }
    }

    /// Whether `seen` is a state in which the disk can be found when `op` is
    /// cut short. A write may leave any text in its file; a rename and the
    /// removal of a file happen in one step or not at all; creating
    /// directories leaves every file alone; removing a directory may have
    /// removed any of what was in it.
    pub open spec fn torn(self, op: FileOpView, seen: Disk) -> bool {
        match op {
            FileOpView::Write { path, content } => seen.dirs == self.dirs && (seen.files
                == self.files || exists|partial: Seq<char>|
                seen.files == #[trigger] self.files.insert(path, partial)),
            FileOpView::Rename { from, to } => seen == self,
            FileOpView::RemoveFile { path } => seen == self,
            FileOpView::CreateDirAll { path } => seen.files == self.files,
            FileOpView::RemoveDirAll { path } => forall|p: Seq<char>| !inside(path, p) ==> (
            #[trigger] seen.files.contains_key(p) == self.files.contains_key(p)) && (
            self.files.contains_key(p) ==> seen.files[p] == self.files[p]),
        }
    }

    /// Whether `seen` is a state in which the disk can be found when the plan
    /// `ops` is cut short: some operations have been performed in full and the
    /// next one was under way.
    pub open spec fn interrupted(self, ops: Seq<FileOpView>, seen: Disk) -> bool {
        exists|done: int|
            0 <= done < ops.len() && #[trigger] self.run(ops.take(done)).torn(ops[done], seen)
    }
}

} // verus!
