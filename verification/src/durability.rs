//! What the storage plans guarantee, stated on the disk model.
//!
//! A save that runs to its end leaves the new text at the entity's path and
//! every other entity as it was. A save that is cut short, at any point,
//! leaves the entity's path as it was before: a reader finds the previous
//! version or nothing, never part of a file. A delete leaves nothing to
//! delete, and leaves every entity under another id as it was.
//!
//! The laws about ids hold for every id that is a file name, which are the ids
//! under which the repositories store anything.
//!
//! The laws that speak of loading are stated for any way of turning text into
//! entities: [`fetched_from`] is what a caller reports who looks at the path,
//! reads the file if there is one, and decodes what it read.

use crate::disk::{inside, Disk, FileOpView};
use crate::ident::{is_hyphen_place, is_hyphenated_hex, is_lower_hex};
use crate::path::{
    extension_of, free_of, has_extension, is_file_name, joined, last_index_of,
    lemma_extension_of_dotted, lemma_extension_of_with_extension, lemma_joined_ends_with_part,
    lemma_joined_is_injective, lemma_last_index_is, lemma_last_index_of,
    lemma_with_extension_differs, lemma_with_extension_ends, lemma_with_extension_is_sibling,
    name_start, starts_at_root,
};
use crate::error::CoreErrorView;
use crate::storage::{
    atomic_write_plan, dir_removal_plan, file_removal_plan, load_result, project_dir_of,
    project_path_of, project_save_plan, scratch_path_of, temp_path_of, template_path_of, Fetched,
};
use crate::workspace::{projects_dir_of, scratches_dir_of, setup_plan, templates_dir_of};
use vstd::prelude::*;

verus! {

/// Whether `path` ends in `.json`, as the file of every entity does.
pub open spec fn is_json_path(path: Seq<char>) -> bool {
    path.len() >= 5 && path.skip(path.len() - 5) == ".json"@
}

/// Whether `seen` holds at `path` exactly what `disk` holds there: the same
/// text, or nothing in both.
pub open spec fn same_at(disk: Disk, seen: Disk, path: Seq<char>) -> bool {
    &&& seen.files.contains_key(path) == disk.files.contains_key(path)
    &&& disk.files.contains_key(path) ==> seen.files[path] == disk.files[path]
}

/// The files of scratches, templates and projects all end in `.json`.
pub proof fn lemma_entity_paths_are_json(base: Seq<char>, id: Seq<char>)
    ensures
        is_json_path(scratch_path_of(base, id)),
        is_json_path(template_path_of(base, id)),
        is_json_path(project_path_of(base, id)),
{
    reveal_strlit(".json");
    reveal_strlit("project.json");
    let name = id + ".json"@;
    assert(name.skip(name.len() - 5) =~= ".json"@);
    lemma_joined_ends_with_part(scratches_dir_of(base), name);
    lemma_json_suffix(scratch_path_of(base, id), name);
    lemma_joined_ends_with_part(templates_dir_of(base), name);
    lemma_json_suffix(template_path_of(base, id), name);
    lemma_joined_ends_with_part(project_dir_of(base, id), "project.json"@);
    assert("project.json"@.skip(7) =~= ".json"@);
    lemma_json_suffix(project_path_of(base, id), "project.json"@);
}

/// A path that ends with a part that ends in `.json` ends in `.json`.
proof fn lemma_json_suffix(path: Seq<char>, part: Seq<char>)
    requires
        path.len() >= part.len(),
        path.skip(path.len() - part.len()) == part,
        is_json_path(part),
    ensures
        is_json_path(path),
{
    assert(path.skip(path.len() - 5) =~= path.skip(path.len() - part.len()).skip(
        part.len() - 5,
    ));
}

/// No in-place write: the sibling to which the text for a path is written
/// first is never the path itself, whatever the path.
pub proof fn lemma_temp_differs(path: Seq<char>)
    ensures
        temp_path_of(path) != path,
{
    reveal_strlit(".tmp");
    if extension_of(path) == Some("tmp"@) {
        assert((path + ".tmp"@).len() == path.len() + 4);
    } else {
        lemma_with_extension_differs(path, "tmp"@);
    }
}

/// The sibling of any path ends in `.tmp`.
pub proof fn lemma_temp_ends_in_tmp(path: Seq<char>)
    ensures
        temp_path_of(path).len() >= 4,
        temp_path_of(path).skip(temp_path_of(path).len() - 4) == ".tmp"@,
{
    reveal_strlit(".tmp");
    reveal_strlit("tmp");
    let temp = temp_path_of(path);
    if extension_of(path) == Some("tmp"@) {
        assert(temp.skip(temp.len() - 4) =~= ".tmp"@);
    } else {
        lemma_with_extension_ends(path, "tmp"@);
        assert(temp.skip(temp.len() - 3) == "tmp"@);
        assert forall|i: int| 0 <= i < 4 implies temp.skip(temp.len() - 4)[i] == ".tmp"@[i] by {
            if i > 0 {
                assert(temp.skip(temp.len() - 3)[i - 1] == "tmp"@[i - 1]);
            }
        }
        assert(temp.skip(temp.len() - 4) =~= ".tmp"@);
    }
}

/// The sibling to which an entity's text is written first is not the file of
/// any entity: neither of the entity being saved nor of any other.
pub proof fn lemma_temp_is_no_entity_file(path: Seq<char>, other: Seq<char>)
    requires
        is_json_path(other),
    ensures
        temp_path_of(path) != other,
{
    reveal_strlit(".json");
    reveal_strlit(".tmp");
    lemma_temp_ends_in_tmp(path);
    let temp = temp_path_of(path);
    assert(temp.skip(temp.len() - 4)[3] == 'p');
    assert(other.skip(other.len() - 5)[4] == 'n');
}

/// Running the empty plan changes nothing.
pub proof fn lemma_run_nothing(disk: Disk)
    ensures
        disk.run(Seq::empty()) == disk,
{
}

/// Running a plan of one operation applies that operation.
pub proof fn lemma_run_one(disk: Disk, op: FileOpView)
    ensures
        disk.run(seq![op]) == disk.apply(op),
{
    assert(seq![op].drop_last() =~= Seq::<FileOpView>::empty());
    assert(disk.run(Seq::<FileOpView>::empty()) == disk);
    assert(seq![op].last() == op);
}

/// Running a plan whose last operation is `op` runs what comes before and
/// then applies `op`.
pub proof fn lemma_run_then(disk: Disk, ops: Seq<FileOpView>, op: FileOpView)
    ensures
        disk.run(ops.push(op)) == disk.run(ops).apply(op),
{
    assert(ops.push(op).drop_last() =~= ops);
}

/// Round trip at the level of stored text: after an atomic write to any
/// path has run to its end, the path holds the new text, the sibling is gone,
/// and every other file and every directory is as it was.
pub proof fn lemma_atomic_write_completes(disk: Disk, path: Seq<char>, content: Seq<char>)
    ensures
        disk.run(atomic_write_plan(path, content)).files.contains_key(path),
        disk.run(atomic_write_plan(path, content)).files[path] == content,
        !disk.run(atomic_write_plan(path, content)).files.contains_key(temp_path_of(path)),
        disk.run(atomic_write_plan(path, content)).dirs == disk.dirs,
        forall|other: Seq<char>|
            other != path && other != temp_path_of(path) ==> same_at(
                disk,
                disk.run(atomic_write_plan(path, content)),
                other,
            ),
        forall|other: Seq<char>|
            other != path && is_json_path(other) ==> same_at(
                disk,
                disk.run(atomic_write_plan(path, content)),
                other,
            ),
{
    let temp = temp_path_of(path);
    let write = FileOpView::Write { path: temp, content };
    let rename = FileOpView::Rename { from: temp, to: path };
    lemma_temp_differs(path);
    assert forall|other: Seq<char>| is_json_path(other) implies other != temp by {
        lemma_temp_is_no_entity_file(path, other);
    }
    lemma_run_one(disk, write);
    assert(atomic_write_plan(path, content) =~= seq![write].push(rename));
    lemma_run_then(disk, seq![write], rename);
}

/// Atomicity: in whatever state an atomic write to any path is cut short,
/// every file other than the sibling is as it was. The path itself therefore
/// holds the previous version, or nothing if there was none; it never holds
/// part of the new text.
pub proof fn lemma_atomic_write_interrupted(
    disk: Disk,
    path: Seq<char>,
    content: Seq<char>,
    seen: Disk,
)
    requires
        disk.interrupted(atomic_write_plan(path, content), seen),
    ensures
        same_at(disk, seen, path),
        forall|other: Seq<char>| other != temp_path_of(path) ==> same_at(disk, seen, other),
{
    let temp = temp_path_of(path);
    let plan = atomic_write_plan(path, content);
    let write = FileOpView::Write { path: temp, content };
    lemma_temp_differs(path);
    let done = choose|done: int|
        0 <= done < plan.len() && #[trigger] disk.run(plan.take(done)).torn(plan[done], seen);
    if done == 0 {
        assert(plan.take(0) =~= Seq::<FileOpView>::empty());
    } else {
        assert(plan.take(1) =~= seq![write]);
        lemma_run_one(disk, write);
    }
}

/// Round trip for scratches and templates: after the save has run to its
/// end, loading finds at the entity's path exactly the text that was saved,
/// whatever was stored under the id before.
pub proof fn lemma_saved_entity_is_found(
    disk: Disk,
    base: Seq<char>,
    id: Seq<char>,
    content: Seq<char>,
)
    ensures
        disk.run(atomic_write_plan(scratch_path_of(base, id), content)).files.contains_key(
            scratch_path_of(base, id),
        ),
        disk.run(atomic_write_plan(scratch_path_of(base, id), content)).files[scratch_path_of(
            base,
            id,
        )] == content,
        disk.run(atomic_write_plan(template_path_of(base, id), content)).files.contains_key(
            template_path_of(base, id),
        ),
        disk.run(atomic_write_plan(template_path_of(base, id), content)).files[template_path_of(
            base,
            id,
        )] == content,
{
    lemma_atomic_write_completes(disk, scratch_path_of(base, id), content);
    lemma_atomic_write_completes(disk, template_path_of(base, id), content);
}

/// Setting up the workspace creates the three directories and the root with
/// them, touches no file, and doing it again changes nothing.
pub proof fn lemma_setup_is_idempotent(disk: Disk, base: Seq<char>)
    ensures
        disk.run(setup_plan(base)).dirs.contains(scratches_dir_of(base)),
        disk.run(setup_plan(base)).dirs.contains(projects_dir_of(base)),
        disk.run(setup_plan(base)).dirs.contains(templates_dir_of(base)),
        base.len() > 0 ==> disk.run(setup_plan(base)).dirs.contains(base),
        disk.run(setup_plan(base)).files == disk.files,
        disk.run(setup_plan(base)).run(setup_plan(base)) == disk.run(setup_plan(base)),
{
    reveal_strlit("scratches");
    if base.len() > 0 {
        assert(scratches_dir_of(base).take(base.len() as int) =~= base);
        assert(crate::disk::is_ancestor(base, scratches_dir_of(base)));
    }
    let first = FileOpView::CreateDirAll { path: scratches_dir_of(base) };
    let second = FileOpView::CreateDirAll { path: projects_dir_of(base) };
    let third = FileOpView::CreateDirAll { path: templates_dir_of(base) };
    assert(setup_plan(base) =~= seq![first].push(second).push(third));
    let once = disk.run(setup_plan(base));
    lemma_run_one(disk, first);
    lemma_run_then(disk, seq![first], second);
    lemma_run_then(disk, seq![first].push(second), third);
    lemma_run_one(once, first);
    lemma_run_then(once, seq![first], second);
    lemma_run_then(once, seq![first].push(second), third);
    assert(once.run(setup_plan(base)).dirs =~= once.dirs);
}

/// Round trip for a project: after the save has run to its end, the project's
/// file holds the new text and every other file but the sibling is as it was.
pub proof fn lemma_project_save_completes(
    disk: Disk,
    base: Seq<char>,
    id: Seq<char>,
    content: Seq<char>,
)
    ensures
        disk.run(project_save_plan(base, id, content)).files.contains_key(
            project_path_of(base, id),
        ),
        disk.run(project_save_plan(base, id, content)).files[project_path_of(base, id)]
            == content,
        disk.run(project_save_plan(base, id, content)).dirs.contains(project_dir_of(base, id)),
        forall|other: Seq<char>|
            other != project_path_of(base, id) && other != temp_path_of(project_path_of(base, id))
                ==> same_at(disk, disk.run(project_save_plan(base, id, content)), other),
{
    let path = project_path_of(base, id);
    let temp = temp_path_of(path);
    let mkdir = FileOpView::CreateDirAll { path: project_dir_of(base, id) };
    let write = FileOpView::Write { path: temp, content };
    let rename = FileOpView::Rename { from: temp, to: path };
    lemma_temp_differs(path);
    lemma_run_one(disk, mkdir);
    assert(project_save_plan(base, id, content) =~= seq![mkdir].push(write).push(rename));
    lemma_run_then(disk, seq![mkdir], write);
    lemma_run_then(disk, seq![mkdir].push(write), rename);
}

/// Atomicity for a project: in whatever state its save is cut short, every
/// file other than the sibling is as it was.
pub proof fn lemma_project_save_interrupted(
    disk: Disk,
    base: Seq<char>,
    id: Seq<char>,
    content: Seq<char>,
    seen: Disk,
)
    requires
        disk.interrupted(project_save_plan(base, id, content), seen),
    ensures
        same_at(disk, seen, project_path_of(base, id)),
        forall|other: Seq<char>|
            other != temp_path_of(project_path_of(base, id)) ==> same_at(disk, seen, other),
{
    let path = project_path_of(base, id);
    let temp = temp_path_of(path);
    let plan = project_save_plan(base, id, content);
    let mkdir = FileOpView::CreateDirAll { path: project_dir_of(base, id) };
    let write = FileOpView::Write { path: temp, content };
    lemma_temp_differs(path);
    let done = choose|done: int|
        0 <= done < plan.len() && #[trigger] disk.run(plan.take(done)).torn(plan[done], seen);
    lemma_run_one(disk, mkdir);
    lemma_run_then(disk, seq![mkdir], write);
    if done == 0 {
        assert(plan.take(0) =~= Seq::<FileOpView>::empty());
    } else if done == 1 {
        assert(plan.take(1) =~= seq![mkdir]);
    } else {
        assert(plan.take(2) =~= seq![mkdir].push(write));
    }
}

/// Idempotence of deleting a file: once the plan for deleting has run, the
/// file is gone, every other file is as it was, and the plan for deleting
/// again is empty, so that a second delete has nothing to do and cannot fail.
pub proof fn lemma_file_delete_is_idempotent(disk: Disk, path: Seq<char>)
    ensures
        !disk.run(file_removal_plan(path, disk.files.contains_key(path))).files.contains_key(path),
        forall|other: Seq<char>|
            other != path ==> same_at(
                disk,
                disk.run(file_removal_plan(path, disk.files.contains_key(path))),
                other,
            ),
        file_removal_plan(
            path,
            disk.run(file_removal_plan(path, disk.files.contains_key(path))).files.contains_key(
                path,
            ),
        ) == Seq::<FileOpView>::empty(),
{
    if disk.files.contains_key(path) {
        lemma_run_one(disk, FileOpView::RemoveFile { path });
    }
}

/// Idempotence of deleting a project: once the plan for deleting has run, the
/// project's directory is gone with every file in it, every file outside it
/// is as it was, and the plan for deleting again is empty.
pub proof fn lemma_dir_delete_is_idempotent(disk: Disk, dir: Seq<char>)
    ensures
        !disk.run(dir_removal_plan(dir, disk.dirs.contains(dir))).dirs.contains(dir),
        disk.dirs.contains(dir) ==> forall|file: Seq<char>|
            inside(dir, file) ==> !disk.run(
                dir_removal_plan(dir, disk.dirs.contains(dir)),
            ).files.contains_key(file),
        forall|other: Seq<char>|
            !inside(dir, other) ==> same_at(
                disk,
                disk.run(dir_removal_plan(dir, disk.dirs.contains(dir))),
                other,
            ),
        dir_removal_plan(
            dir,
            disk.run(dir_removal_plan(dir, disk.dirs.contains(dir))).dirs.contains(dir),
        ) == Seq::<FileOpView>::empty(),
{
    if disk.dirs.contains(dir) {
        lemma_run_one(disk, FileOpView::RemoveDirAll { path: dir });
    }
}

/// The file of a project lies inside the project's directory, so deleting
/// the directory deletes the project.
pub proof fn lemma_project_file_is_inside_its_dir(base: Seq<char>, id: Seq<char>)
    ensures
        inside(project_dir_of(base, id), project_path_of(base, id)),
{
    reveal_strlit("project.json");
    let dir = project_dir_of(base, id);
    let prefix = joined(dir, Seq::<char>::empty());
    let path = project_path_of(base, id);
    assert("project.json"@.len() == 12);
    assert("project.json"@[0] == 'p');
    if dir.len() == 0 || dir.last() == '/' {
        assert(prefix =~= dir);
        assert(path.take(prefix.len() as int) =~= prefix);
    } else {
        assert(prefix =~= dir + seq!['/']);
        assert(path.take(prefix.len() as int) =~= prefix);
    }
}

/// Every generated identifier is a file name, so it is accepted by every
/// repository.
pub proof fn lemma_generated_id_is_a_file_name(id: Seq<char>)
    requires
        is_hyphenated_hex(id),
    ensures
        is_file_name(id),
{
    assert forall|i: int| 0 <= i < id.len() implies id[i] != '/' by {
        if is_hyphen_place(i) {
            assert(id[i] == '-');
        } else {
            assert(is_lower_hex(id[i]));
        }
    }
    assert(seq!['.'].len() == 1);
    assert(seq!['.', '.'].len() == 2);
}

/// The sibling to which an entity's text is written first lies in the same
/// directory as the entity's file.
pub proof fn lemma_temp_is_a_sibling(path: Seq<char>)
    ensures
        name_start(temp_path_of(path)) == name_start(path),
        temp_path_of(path).len() >= name_start(path),
        temp_path_of(path).take(name_start(path)) == path.take(name_start(path)),
{
    reveal_strlit("tmp");
    reveal_strlit(".tmp");
    lemma_last_index_of(path, '/');
    if extension_of(path) == Some("tmp"@) {
        let temp = path + ".tmp"@;
        let slash = last_index_of(path, '/');
        assert forall|j: int| slash < j < temp.len() implies temp[j] != '/' by {
            if j < path.len() {
                assert(temp[j] == path[j]);
            } else {
                assert(temp[j] == ".tmp"@[j - path.len()]);
            }
        }
        if slash >= 0 {
            assert(temp[slash] == path[slash]);
        }
        lemma_last_index_is(temp, '/', slash);
        assert(temp.take(name_start(path)) =~= path.take(name_start(path)));
    } else {
        lemma_with_extension_is_sibling(path, "tmp"@);
    }
}

/// The sibling has the extension `tmp`, so it is never taken for an entity
/// when a directory is listed.
pub proof fn lemma_temp_is_not_listed(path: Seq<char>)
    requires
        is_json_path(path),
    ensures
        extension_of(temp_path_of(path)) == Some("tmp"@),
        extension_of(temp_path_of(path)) != Some("json"@),
{
    reveal_strlit("tmp");
    reveal_strlit("json");
    reveal_strlit(".json");
    lemma_last_index_of(path, '/');
    lemma_last_index_of(path, '.');
    assert(path.last() == path.skip(path.len() - 5)[4]);
    if has_extension(path) && extension_of(path) == Some("tmp"@) {
        let dot = last_index_of(path, '.');
        assert(path.skip(dot + 1).len() == 3);
        assert(path.skip(dot + 1)[2] == path.last());
    }
    lemma_extension_of_with_extension(path, "tmp"@);
    assert("tmp"@.len() != "json"@.len());
}

/// The file of a scratch or a template whose id is a file name has the extension
/// `json`, so it is taken for an entity when its directory is listed.
pub proof fn lemma_entity_files_are_listed(base: Seq<char>, id: Seq<char>)
    requires
        is_file_name(id),
    ensures
        extension_of(scratch_path_of(base, id)) == Some("json"@),
        extension_of(template_path_of(base, id)) == Some("json"@),
{
    reveal_strlit("json");
    reveal_strlit(".json");
    let name = id + ".json"@;
    assert(".json"@ =~= seq!['.'] + "json"@);
    assert(name[0] == id[0]);
    lemma_named_file_has_extension(scratches_dir_of(base), id);
    lemma_named_file_has_extension(templates_dir_of(base), id);
}

/// In any directory, the file named by a file name and `.json` has the
/// extension `json`.
proof fn lemma_named_file_has_extension(dir: Seq<char>, id: Seq<char>)
    requires
        is_file_name(id),
    ensures
        extension_of(joined(dir, id + ".json"@)) == Some("json"@),
{
    reveal_strlit("json");
    reveal_strlit(".json");
    let name = id + ".json"@;
    assert(name[0] == id[0]);
    let path = joined(dir, name);
    let stem = path.take(path.len() - 5);
    assert(".json"@ =~= seq!['.'] + "json"@);
    assert(path =~= stem + seq!['.'] + "json"@);
    assert(stem.last() == id.last());
    lemma_extension_of_dotted(stem, "json"@);
}

/// Entities with different ids are stored in different files, and
/// projects in different directories.
pub proof fn lemma_entity_paths_differ(base: Seq<char>, a: Seq<char>, b: Seq<char>)
    requires
        is_file_name(a),
        is_file_name(b),
        a != b,
    ensures
        scratch_path_of(base, a) != scratch_path_of(base, b),
        template_path_of(base, a) != template_path_of(base, b),
        project_dir_of(base, a) != project_dir_of(base, b),
        project_path_of(base, a) != project_path_of(base, b),
{
    reveal_strlit(".json");
    reveal_strlit("project.json");
    let name_a = a + ".json"@;
    let name_b = b + ".json"@;
    assert(name_a[0] == a[0] && name_b[0] == b[0]);
    if name_a == name_b {
        assert(a =~= name_a.take(a.len() as int));
        assert(b =~= name_b.take(b.len() as int));
    }
    if scratch_path_of(base, a) == scratch_path_of(base, b) {
        lemma_joined_is_injective(scratches_dir_of(base), name_a, name_b);
    }
    if template_path_of(base, a) == template_path_of(base, b) {
        lemma_joined_is_injective(templates_dir_of(base), name_a, name_b);
    }
    let dir_a = project_dir_of(base, a);
    let dir_b = project_dir_of(base, b);
    if dir_a == dir_b {
        lemma_joined_is_injective(projects_dir_of(base), a, b);
    }
    lemma_joined_ends_with_part(projects_dir_of(base), a);
    lemma_joined_ends_with_part(projects_dir_of(base), b);
    assert(dir_a.last() == a.last());
    assert(dir_b.last() == b.last());
    let file = seq!['/'] + "project.json"@;
    assert(project_path_of(base, a) =~= dir_a + file);
    assert(project_path_of(base, b) =~= dir_b + file);
    if project_path_of(base, a) == project_path_of(base, b) {
        assert(dir_a =~= (dir_a + file).take(dir_a.len() as int));
        assert(dir_b =~= (dir_b + file).take(dir_b.len() as int));
    }
}

/// What a caller finds at `path` on `disk`, where `decode` is its way of
/// reading an entity from text: nothing, a text that does not decode, or an
/// entity.
pub open spec fn fetched_from<T>(
    disk: Disk,
    path: Seq<char>,
    decode: spec_fn(Seq<char>) -> Result<T, String>,
) -> Fetched<T> {
    if !disk.files.contains_key(path) {
        Fetched::Missing
    } else {
        match decode(disk.files[path]) {
            Ok(entity) => Fetched::Found(entity),
            Err(message) => Fetched::Failed(message),
        }
    }
}

/// Round trip: if decoding undoes encoding for an entity, then after the
/// entity has been saved, loading returns it, equal in every field, whatever
/// was stored at the path before.
pub proof fn lemma_save_then_load<T>(
    disk: Disk,
    path: Seq<char>,
    encode: spec_fn(T) -> Seq<char>,
    decode: spec_fn(Seq<char>) -> Result<T, String>,
    entity: T,
    what: Seq<char>,
)
    requires
        decode(encode(entity)) == Ok::<T, String>(entity),
    ensures
        load_result(
            fetched_from(disk.run(atomic_write_plan(path, encode(entity))), path, decode),
            what,
        ) == Ok::<T, CoreErrorView>(entity),
{
    lemma_atomic_write_completes(disk, path, encode(entity));
}

/// Round trip for a project: if decoding undoes encoding for it, then after
/// the project has been saved, loading returns it.
pub proof fn lemma_project_save_then_load<T>(
    disk: Disk,
    base: Seq<char>,
    id: Seq<char>,
    encode: spec_fn(T) -> Seq<char>,
    decode: spec_fn(Seq<char>) -> Result<T, String>,
    project: T,
    what: Seq<char>,
)
    requires
        decode(encode(project)) == Ok::<T, String>(project),
    ensures
        load_result(
            fetched_from(
                disk.run(project_save_plan(base, id, encode(project))),
                project_path_of(base, id),
                decode,
            ),
            what,
        ) == Ok::<T, CoreErrorView>(project),
{
    lemma_project_save_completes(disk, base, id, encode(project));
}

/// Not found: where nothing is stored at the path, and so in an empty
/// repository for every id, loading fails with `NotFound`, not with a storage
/// failure.
pub proof fn lemma_load_of_absent_is_not_found<T>(
    disk: Disk,
    path: Seq<char>,
    decode: spec_fn(Seq<char>) -> Result<T, String>,
    what: Seq<char>,
)
    requires
        !disk.files.contains_key(path),
    ensures
        load_result(fetched_from(disk, path, decode), what) == Err::<T, CoreErrorView>(
            CoreErrorView::NotFound(what),
        ),
{
}

/// Atomicity as a reader sees it: in whatever state a save is cut short,
/// loading gives what it gave before the save began: the previous version,
/// or `NotFound` if there was none. What has been written of the new text is
/// never read.
pub proof fn lemma_interrupted_save_is_invisible<T>(
    disk: Disk,
    path: Seq<char>,
    content: Seq<char>,
    seen: Disk,
    decode: spec_fn(Seq<char>) -> Result<T, String>,
)
    requires
        disk.interrupted(atomic_write_plan(path, content), seen),
    ensures
        fetched_from(seen, path, decode) == fetched_from(disk, path, decode),
        forall|other: Seq<char>|
            is_json_path(other) ==> fetched_from(seen, other, decode) == fetched_from(
                disk,
                other,
                decode,
            ),
{
    lemma_atomic_write_interrupted(disk, path, content, seen);
    assert forall|other: Seq<char>| is_json_path(other) implies fetched_from(seen, other, decode)
        == fetched_from(disk, other, decode) by {
        lemma_temp_is_no_entity_file(path, other);
        assert(same_at(disk, seen, other));
    }
}

/// Atomicity for a project as a reader sees it: in whatever state the save
/// of a project is cut short, loading any entity gives what it gave before.
pub proof fn lemma_interrupted_project_save_is_invisible<T>(
    disk: Disk,
    base: Seq<char>,
    id: Seq<char>,
    content: Seq<char>,
    seen: Disk,
    decode: spec_fn(Seq<char>) -> Result<T, String>,
)
    requires
        disk.interrupted(project_save_plan(base, id, content), seen),
    ensures
        forall|other: Seq<char>|
            is_json_path(other) ==> fetched_from(seen, other, decode) == fetched_from(
                disk,
                other,
                decode,
            ),
{
    lemma_project_save_interrupted(disk, base, id, content, seen);
    assert forall|other: Seq<char>| is_json_path(other) implies fetched_from(seen, other, decode)
        == fetched_from(disk, other, decode) by {
        lemma_temp_is_no_entity_file(project_path_of(base, id), other);
        assert(same_at(disk, seen, other));
    }
}

/// After an entity stored in a file has been deleted, loading it fails with
/// `NotFound`, and so it does after it has been deleted twice.
pub proof fn lemma_deleted_entity_is_not_found<T>(
    disk: Disk,
    path: Seq<char>,
    decode: spec_fn(Seq<char>) -> Result<T, String>,
    what: Seq<char>,
)
    ensures
        load_result(
            fetched_from(
                disk.run(file_removal_plan(path, disk.files.contains_key(path))),
                path,
                decode,
            ),
            what,
        ) == Err::<T, CoreErrorView>(CoreErrorView::NotFound(what)),
{
    lemma_file_delete_is_idempotent(disk, path);
}

/// A part that is not empty and does not start at the root, adjoined to a
/// directory, gives a path inside that directory.
pub proof fn lemma_joined_is_inside(dir: Seq<char>, part: Seq<char>)
    requires
        part.len() > 0,
        !starts_at_root(part),
    ensures
        inside(dir, joined(dir, part)),
        joined(dir, part) == joined(dir, Seq::<char>::empty()) + part,
{
    let prefix = joined(dir, Seq::<char>::empty());
    let path = joined(dir, part);
    assert(path =~= prefix + part);
    assert(path.take(prefix.len() as int) =~= prefix);
}

/// Every entity whose id is a file name is stored under the workspace, in
/// the directory of its kind: a scratch and a template as a file in their
/// directory, a project as a directory in the projects directory with its
/// file inside.
pub proof fn lemma_entity_paths_are_inside(base: Seq<char>, id: Seq<char>)
    requires
        is_file_name(id),
    ensures
        inside(scratches_dir_of(base), scratch_path_of(base, id)),
        inside(templates_dir_of(base), template_path_of(base, id)),
        inside(projects_dir_of(base), project_dir_of(base, id)),
        inside(project_dir_of(base, id), project_path_of(base, id)),
{
    let name = id + ".json"@;
    assert(name[0] == id[0]);
    lemma_joined_is_inside(scratches_dir_of(base), name);
    lemma_joined_is_inside(templates_dir_of(base), name);
    lemma_joined_is_inside(projects_dir_of(base), id);
    lemma_project_file_is_inside_its_dir(base, id);
}

/// Deleting one project spares every other: the file and the directory of a
/// project with another id lie outside the directory that is removed.
pub proof fn lemma_project_dirs_are_apart(base: Seq<char>, id: Seq<char>, other: Seq<char>)
    requires
        is_file_name(id),
        is_file_name(other),
        id != other,
    ensures
        project_dir_of(base, other) != project_dir_of(base, id),
        !inside(project_dir_of(base, id), project_dir_of(base, other)),
        !inside(project_dir_of(base, id), project_path_of(base, other)),
{
    reveal_strlit("project.json");
    let root = joined(projects_dir_of(base), Seq::<char>::empty());
    lemma_joined_is_inside(projects_dir_of(base), id);
    lemma_joined_is_inside(projects_dir_of(base), other);
    lemma_entity_paths_differ(base, id, other);
    let dir = project_dir_of(base, id);
    let other_dir = project_dir_of(base, other);
    assert(dir == root + id);
    assert(other_dir == root + other);
    assert(dir.last() == id.last());
    assert(other_dir.last() == other.last());
    let prefix = joined(dir, Seq::<char>::empty());
    let r = root.len() as int;
    let n = id.len() as int;
    let m = other.len() as int;
    assert(prefix =~= root + id + seq!['/']);
    let file = project_path_of(base, other);
    assert(file =~= root + other + seq!['/'] + "project.json"@);
    // The first separator after the projects directory ends the id.
    if inside(dir, other_dir) {
        assert(other_dir.take(prefix.len() as int) == prefix);
        assert(other_dir[r + n] == prefix[r + n]);
        assert(other_dir[r + n] == other[n]);
    }
    if inside(dir, file) {
        assert(file.take(prefix.len() as int) == prefix);
        if n < m {
            assert(file[r + n] == prefix[r + n]);
            assert(file[r + n] == other[n]);
        } else if n > m {
            assert(file[r + m] == prefix[r + m]);
            assert(prefix[r + m] == id[m]);
        } else {
            assert forall|i: int| 0 <= i < id.len() implies id[i] == other[i] by {
                assert(file[r + i] == prefix[r + i]);
                assert(prefix[r + i] == id[i]);
                assert(file[r + i] == other[i]);
            }
            assert(id =~= other);
        }
    }
}

/// Deleting a scratch or a template leaves every entity under another id as
/// it was: what loading it gives does not change.
pub proof fn lemma_file_delete_leaves_others<T>(
    disk: Disk,
    base: Seq<char>,
    id: Seq<char>,
    other: Seq<char>,
    present: bool,
    decode: spec_fn(Seq<char>) -> Result<T, String>,
)
    requires
        is_file_name(other),
        id != other,
    ensures
        fetched_from(
            disk.run(file_removal_plan(scratch_path_of(base, id), present && is_file_name(id))),
            scratch_path_of(base, other),
            decode,
        ) == fetched_from(disk, scratch_path_of(base, other), decode),
        fetched_from(
            disk.run(file_removal_plan(template_path_of(base, id), present && is_file_name(id))),
            template_path_of(base, other),
            decode,
        ) == fetched_from(disk, template_path_of(base, other), decode),
{
    if present && is_file_name(id) {
        lemma_entity_paths_differ(base, id, other);
        lemma_run_one(disk, FileOpView::RemoveFile { path: scratch_path_of(base, id) });
        lemma_run_one(disk, FileOpView::RemoveFile { path: template_path_of(base, id) });
    }
}

/// Deleting a project leaves every project under another id as it was: what
/// loading it gives does not change, and its directory stays.
pub proof fn lemma_project_delete_leaves_others<T>(
    disk: Disk,
    base: Seq<char>,
    id: Seq<char>,
    other: Seq<char>,
    present: bool,
    decode: spec_fn(Seq<char>) -> Result<T, String>,
)
    requires
        is_file_name(other),
        id != other,
    ensures
        fetched_from(
            disk.run(dir_removal_plan(project_dir_of(base, id), present && is_file_name(id))),
            project_path_of(base, other),
            decode,
        ) == fetched_from(disk, project_path_of(base, other), decode),
        disk.run(
            dir_removal_plan(project_dir_of(base, id), present && is_file_name(id)),
        ).dirs.contains(project_dir_of(base, other)) == disk.dirs.contains(
            project_dir_of(base, other),
        ),
{
    if present && is_file_name(id) {
        lemma_project_dirs_are_apart(base, id, other);
        lemma_run_one(disk, FileOpView::RemoveDirAll { path: project_dir_of(base, id) });
    }
}

/// Whether the file of the project `id` exists only where the project's
/// directory does, as it must on a real disk.
pub open spec fn project_is_housed(disk: Disk, base: Seq<char>, id: Seq<char>) -> bool {
    disk.files.contains_key(project_path_of(base, id)) ==> disk.dirs.contains(
        project_dir_of(base, id),
    )
}

/// Saving a project leaves its file in its directory.
pub proof fn lemma_saved_project_is_housed(
    disk: Disk,
    base: Seq<char>,
    id: Seq<char>,
    content: Seq<char>,
)
    ensures
        project_is_housed(disk.run(project_save_plan(base, id, content)), base, id),
{
    lemma_project_save_completes(disk, base, id, content);
}

/// Idempotence of deleting a project, as a reader sees it: on a disk where
/// the project's file exists only where its directory does, once the plan for
/// deleting has run, loading the project gives `NotFound`, its directory is
/// gone, and the plan for deleting again is empty.
pub proof fn lemma_deleted_project_is_not_found<T>(
    disk: Disk,
    base: Seq<char>,
    id: Seq<char>,
    decode: spec_fn(Seq<char>) -> Result<T, String>,
    what: Seq<char>,
)
    requires
        project_is_housed(disk, base, id),
    ensures
        load_result(
            fetched_from(
                disk.run(
                    dir_removal_plan(
                        project_dir_of(base, id),
                        disk.dirs.contains(project_dir_of(base, id)),
                    ),
                ),
                project_path_of(base, id),
                decode,
            ),
            what,
        ) == Err::<T, CoreErrorView>(CoreErrorView::NotFound(what)),
        project_is_housed(
            disk.run(
                dir_removal_plan(
                    project_dir_of(base, id),
                    disk.dirs.contains(project_dir_of(base, id)),
                ),
            ),
            base,
            id,
        ),
        dir_removal_plan(
            project_dir_of(base, id),
            disk.run(
                dir_removal_plan(
                    project_dir_of(base, id),
                    disk.dirs.contains(project_dir_of(base, id)),
                ),
            ).dirs.contains(project_dir_of(base, id)),
        ) == Seq::<FileOpView>::empty(),
{
    lemma_dir_delete_is_idempotent(disk, project_dir_of(base, id));
    lemma_project_file_is_inside_its_dir(base, id);
}

} // verus!
