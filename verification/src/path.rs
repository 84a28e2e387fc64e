//! Paths as texts: components separated by `/`, joined and given extensions
//! by the usual rules.
//!
//! The library never touches the file system; it computes the paths that a
//! caller is to use. A path here is a string, and two paths are the same when
//! their texts are.
//!
//! The rules are those of a platform whose separator is `/`, with two
//! simplifications. A last component `..` is treated like any other name, so
//! that giving it an extension yields `..` followed by a dot and the
//! extension, where the platform leaves such a path unchanged. A trailing
//! separator is kept, so that the last component of `a/` is empty, where the
//! platform takes `a` for it. Neither occurs in a path that the storage layer
//! makes: it accepts only ids for which [`is_file_name`] holds.

use vstd::prelude::*;
use vstd::string::*;

verus! {

/// The index of the last occurrence of `c` in `s`, or -1 if there is none.
pub open spec fn last_index_of(s: Seq<char>, c: char) -> int
    decreases s.len(),
{
    if s.len() == 0 {
        -1
    } else if s.last() == c {
        s.len() - 1
    } else {
        last_index_of(s.drop_last(), c)
    }
}

/// Whether `path` starts at the root.
pub open spec fn starts_at_root(path: Seq<char>) -> bool {
    path.len() > 0 && path[0] == '/'
}

/// Whether `c` occurs nowhere in `s`.
pub open spec fn free_of(s: Seq<char>, c: char) -> bool {
    forall|i: int| 0 <= i < s.len() ==> s[i] != c
}

/// Whether `name` can be the name of one file or directory: it is not empty,
/// holds no separator, and is neither `.` nor `..`.
pub open spec fn is_file_name(name: Seq<char>) -> bool {
    &&& name.len() > 0
    &&& free_of(name, '/')
    &&& name != seq!['.']
    &&& name != seq!['.', '.']
}

/// `part` adjoined to `base`: a part that starts at the root replaces the
/// base; otherwise the part follows the base, after a separator unless the
/// base is empty or already ends in one.
pub open spec fn joined(base: Seq<char>, part: Seq<char>) -> Seq<char> {
    if starts_at_root(part) {
        part
    } else if base.len() == 0 || base.last() == '/' {
        base + part
    } else {
        base + seq!['/'] + part
    }
}

/// Where the last component of `path` begins: just after the last separator.
pub open spec fn name_start(path: Seq<char>) -> int {
    last_index_of(path, '/') + 1
}

/// Whether the last component of `path` has an extension: a dot that is not
/// its first character.
pub open spec fn has_extension(path: Seq<char>) -> bool {
    last_index_of(path, '.') > name_start(path)
}

/// The extension of `path`: what follows the last dot of the last component,
/// if that component has a dot other than a leading one.
pub open spec fn extension_of(path: Seq<char>) -> Option<Seq<char>> {
    if has_extension(path) {
        Some(path.skip(last_index_of(path, '.') + 1))
    } else {
        None
    }
}

/// `path` with its extension replaced by `ext`, or with `ext` added after a
/// dot if it has none.
pub open spec fn with_extension_of(path: Seq<char>, ext: Seq<char>) -> Seq<char> {
    if has_extension(path) {
        path.take(last_index_of(path, '.') + 1) + ext
    } else {
        path + seq!['.'] + ext
    }
}

/// `last_index_of` gives a place where `c` stands, after which it does not
/// occur again, or -1 when it does not occur at all.
pub proof fn lemma_last_index_of(s: Seq<char>, c: char)
    ensures
        -1 <= last_index_of(s, c) < s.len(),
        last_index_of(s, c) >= 0 ==> s[last_index_of(s, c)] == c,
        forall|j: int| last_index_of(s, c) < j < s.len() ==> s[j] != c,
    decreases s.len(),
{
    if s.len() > 0 && s.last() != c {
        lemma_last_index_of(s.drop_last(), c);
        assert forall|j: int| last_index_of(s, c) < j < s.len() implies s[j] != c by {
            if j < s.len() - 1 {
                assert(s.drop_last()[j] == s[j]);
            }
        }
        if last_index_of(s, c) >= 0 {
            assert(s.drop_last()[last_index_of(s, c)] == s[last_index_of(s, c)]);
        }
    }
}

/// The last occurrence is the only index with the properties that
/// [`lemma_last_index_of`] states.
pub proof fn lemma_last_index_is(s: Seq<char>, c: char, r: int)
    requires
        -1 <= r < s.len(),
        r >= 0 ==> s[r] == c,
        forall|j: int| r < j < s.len() ==> s[j] != c,
    ensures
        last_index_of(s, c) == r,
{
    lemma_last_index_of(s, c);
    let k = last_index_of(s, c);
    if k < r {
        assert(s[r] != c);
    } else if k > r {
        assert(s[k] != c);
    }
}

/// The index of the last occurrence of `c` in `s`.
fn last_index(s: &str, c: char) -> (r: Option<usize>)
    ensures
        match r {
            Some(i) => last_index_of(s@, c) == i,
            None => last_index_of(s@, c) == -1,
        },
        s@.len() <= usize::MAX,
{
    let n: usize = s.unicode_len();
    let mut i: usize = n;
    while i > 0
        invariant
            i <= n,
            n == s@.len(),
            forall|j: int| i <= j < n ==> s@[j] != c,
        decreases i,
    {
        i = i - 1;
        if s.get_char(i) == c {
            proof {
                lemma_last_index_is(s@, c, i as int);
            }
            return Some(i);
        }
    }
    proof {
        lemma_last_index_is(s@, c, -1);
    }
    None
}

/// Whether `name` can be the name of one file or directory.
pub fn names_a_file(name: &str) -> (b: bool)
    ensures
        b == is_file_name(name@),
{
    proof {
        lemma_last_index_of(name@, '/');
    }
    let n: usize = name.unicode_len();
    if n == 0 {
        return false;
    }
    if last_index(name, '/').is_some() {
        return false;
    }
    if n == 1 && name.get_char(0) == '.' {
        assert(name@ =~= seq!['.']);
        return false;
    }
    if n == 2 && name.get_char(0) == '.' && name.get_char(1) == '.' {
        assert(name@ =~= seq!['.', '.']);
        return false;
    }
    assert(name@ != seq!['.']) by {
        if name@ == seq!['.'] {
            assert(seq!['.'].len() == 1 && seq!['.'][0] == '.');
        }
    }
    assert(name@ != seq!['.', '.']) by {
        if name@ == seq!['.', '.'] {
            assert(seq!['.', '.'].len() == 2);
            assert(seq!['.', '.'][0] == '.' && seq!['.', '.'][1] == '.');
        }
    }
    true
}

/// Where the last dot of `path` stands, if the last component has an
/// extension.
fn extension_dot(path: &str) -> (r: Option<usize>)
    ensures
        match r {
            Some(d) => has_extension(path@) && d == last_index_of(path@, '.'),
            None => !has_extension(path@),
        },
        path@.len() <= usize::MAX,
{
    proof {
        lemma_last_index_of(path@, '/');
        lemma_last_index_of(path@, '.');
    }
    let start: usize = match last_index(path, '/') {
        Some(i) => i + 1,
        None => 0,
    };
    match last_index(path, '.') {
        Some(d) => if d > start {
            Some(d)
        } else {
            None
        },
        None => None,
    }
}

/// Adjoins `part` to `base`.
pub fn join(base: &str, part: &str) -> (path: String)
    ensures
        path@ == joined(base@, part@),
{
    proof {
        reveal_strlit("/");
    }
    let part_len: usize = part.unicode_len();
    if part_len > 0 && part.get_char(0) == '/' {
        return String::from_str(part);
    }
    let base_len: usize = base.unicode_len();
    let mut path = String::from_str(base);
    if base_len > 0 && base.get_char(base_len - 1) != '/' {
        path.append("/");
        assert("/"@ =~= seq!['/']);
    }
    path.append(part);
    path
}

/// Replaces the extension of `path` by `ext`, or adds it.
pub fn with_extension(path: &str, ext: &str) -> (res: String)
    ensures
        res@ == with_extension_of(path@, ext@),
{
    proof {
        reveal_strlit(".");
        lemma_last_index_of(path@, '.');
    }
    match extension_dot(path) {
        Some(d) => {
            let mut res = String::from_str(path.substring_char(0, d + 1));
            res.append(ext);
            assert(path@.subrange(0, d + 1) =~= path@.take(d + 1));
            res
        },
        None => {
            let mut res = String::from_str(path);
            res.append(".");
            assert("."@ =~= seq!['.']);
            res.append(ext);
            res
        },
    }
}

/// Whether the extension of `path` is `ext`.
pub fn extension_is(path: &str, ext: &str) -> (b: bool)
    ensures
        b == (extension_of(path@) == Some(ext@)),
{
    proof {
        lemma_last_index_of(path@, '.');
    }
    match extension_dot(path) {
        Some(d) => {
            let n: usize = path.unicode_len();
            let found = String::from_str(path.substring_char(d + 1, n));
            let wanted = String::from_str(ext);
            assert(path@.subrange(d + 1, n as int) =~= path@.skip(d + 1));
            found == wanted
        },
        None => false,
    }
}

/// A joined path ends with the part that was adjoined.
pub proof fn lemma_joined_ends_with_part(base: Seq<char>, part: Seq<char>)
    ensures
        joined(base, part).len() >= part.len(),
        joined(base, part).skip(joined(base, part).len() - part.len()) == part,
{
    let path = joined(base, part);
    assert(path.skip(path.len() - part.len()) =~= part);
}

/// Different parts joined to one base give different paths, as long as
/// neither starts at the root.
pub proof fn lemma_joined_is_injective(base: Seq<char>, a: Seq<char>, b: Seq<char>)
    requires
        !starts_at_root(a),
        !starts_at_root(b),
        joined(base, a) == joined(base, b),
    ensures
        a == b,
{
    lemma_joined_ends_with_part(base, a);
    lemma_joined_ends_with_part(base, b);
    assert(joined(base, a).len() - a.len() == joined(base, b).len() - b.len());
}

/// The extension of a path that ends in a dot and `ext` is `ext`, when `ext`
/// holds no dot and no separator and the dot is not the first character of
/// the last component.
pub proof fn lemma_extension_of_dotted(stem: Seq<char>, ext: Seq<char>)
    requires
        free_of(ext, '.'),
        free_of(ext, '/'),
        stem.len() > 0,
        stem.last() != '/',
    ensures
        has_extension(stem + seq!['.'] + ext),
        last_index_of(stem + seq!['.'] + ext, '.') == stem.len(),
        extension_of(stem + seq!['.'] + ext) == Some(ext),
        name_start(stem + seq!['.'] + ext) == name_start(stem),
{
    let path = stem + seq!['.'] + ext;
    lemma_last_index_is(path, '.', stem.len() as int);
    lemma_last_index_of(stem, '/');
    let slash = last_index_of(stem, '/');
    assert forall|j: int| slash < j < path.len() implies path[j] != '/' by {
        if j < stem.len() {
            assert(path[j] == stem[j]);
        } else if j > stem.len() {
            assert(path[j] == ext[j - stem.len() - 1]);
        }
    }
    if slash >= 0 {
        assert(path[slash] == stem[slash]);
    }
    lemma_last_index_is(path, '/', slash);
    assert(path.skip(stem.len() as int + 1) =~= ext);
}

/// A path with its extension replaced by `ext` ends in a dot and `ext`.
pub proof fn lemma_with_extension_ends(path: Seq<char>, ext: Seq<char>)
    ensures
        with_extension_of(path, ext).len() > ext.len(),
        with_extension_of(path, ext).skip(with_extension_of(path, ext).len() - ext.len()) == ext,
        with_extension_of(path, ext)[with_extension_of(path, ext).len() - ext.len() - 1] == '.',
{
    lemma_last_index_of(path, '.');
    lemma_last_index_of(path, '/');
    let res = with_extension_of(path, ext);
    assert(res.skip(res.len() - ext.len()) =~= ext);
}

/// Replacing the extension gives a different path, unless the path has that
/// extension already.
pub proof fn lemma_with_extension_differs(path: Seq<char>, ext: Seq<char>)
    requires
        extension_of(path) != Some(ext),
    ensures
        with_extension_of(path, ext) != path,
{
    lemma_last_index_of(path, '.');
    lemma_last_index_of(path, '/');
    if has_extension(path) {
        let dot = last_index_of(path, '.');
        let res = with_extension_of(path, ext);
        if res == path {
            assert(res.skip(dot + 1) =~= ext);
        }
    }
}

/// A path with its extension replaced lies in the same directory: the text
/// up to the start of the last component is unchanged, and so is the place
/// where that component starts if the new extension holds no separator.
pub proof fn lemma_with_extension_is_sibling(path: Seq<char>, ext: Seq<char>)
    ensures
        with_extension_of(path, ext).len() >= name_start(path),
        with_extension_of(path, ext).take(name_start(path)) == path.take(name_start(path)),
        free_of(ext, '/') ==> name_start(with_extension_of(path, ext)) == name_start(path),
{
    lemma_last_index_of(path, '.');
    lemma_last_index_of(path, '/');
    let res = with_extension_of(path, ext);
    let slash = last_index_of(path, '/');
    assert(res.take(name_start(path)) =~= path.take(name_start(path)));
    if free_of(ext, '/') {
        assert forall|j: int| slash < j < res.len() implies res[j] != '/' by {
            if has_extension(path) {
                let dot = last_index_of(path, '.');
                if j <= dot {
                    assert(res[j] == path[j]);
                } else {
                    assert(res[j] == ext[j - dot - 1]);
                }
            } else {
                if j < path.len() {
                    assert(res[j] == path[j]);
                } else if j > path.len() {
                    assert(res[j] == ext[j - path.len() - 1]);
                }
            }
        }
        if slash >= 0 {
            assert(res[slash] == path[slash]);
        }
        lemma_last_index_is(res, '/', slash);
    }
}

/// After its extension is replaced by `ext`, a path whose last component is
/// not empty has `ext` for its extension, when `ext` holds no dot and no
/// separator.
pub proof fn lemma_extension_of_with_extension(path: Seq<char>, ext: Seq<char>)
    requires
        free_of(ext, '.'),
        free_of(ext, '/'),
        name_start(path) < path.len(),
    ensures
        extension_of(with_extension_of(path, ext)) == Some(ext),
{
    lemma_last_index_of(path, '.');
    lemma_last_index_of(path, '/');
    if has_extension(path) {
        let dot = last_index_of(path, '.');
        let stem = path.take(dot);
        assert(path.take(dot + 1) =~= stem + seq!['.']);
        assert(stem.last() == path[dot - 1]);
        lemma_extension_of_dotted(stem, ext);
    } else {
        assert(path.last() == path[path.len() - 1]);
        lemma_extension_of_dotted(path, ext);
    }
}

} // verus!
