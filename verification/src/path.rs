//! The shape of a path: a parent and a file name.
//!
//! A path is a string of bytes in which `/` separates the components. It is
//! read as `std::path::Path` reads a path on Unix. Empty components and
//! components `.` name nothing and are passed over, so `foo.txt/.` and
//! `foo.txt//` have the file name `foo.txt`. A path whose last component is
//! `..` has no file name, and neither has the root, the empty path or `.`.
//! The parent is what precedes the file name, less what names nothing at its
//! end; of the root and of a leading `.` that much is kept. The bytes need not
//! be text: only the file name is ever read as such.

use vstd::prelude::*;
use vstd::slice::slice_subrange;

verus! {

/// The byte that separates the components of a path.
pub const SEPARATOR: u8 = 0x2f;

/// The byte of which the components `.` and `..` are made.
pub const DOT: u8 = 0x2e;

/// Whether `component` is `.`, which stands for the directory it is in.
pub open spec fn is_self_ref(component: Seq<u8>) -> bool {
    component.len() == 1 && component[0] == DOT
}

/// Whether `component` is `..`, which stands for the directory above.
pub open spec fn is_parent_ref(component: Seq<u8>) -> bool {
    component.len() == 2 && component[0] == DOT && component[1] == DOT
}

/// Whether `bytes` ends in what names nothing: a separator, or a component
/// `.`.
pub open spec fn ends_in_filler(bytes: Seq<u8>) -> bool {
    bytes.len() > 0 && (bytes.last() == SEPARATOR || (bytes.last() == DOT && (bytes.len() == 1
        || bytes[bytes.len() - 2] == SEPARATOR)))
}

/// The length of `bytes` without the separators and the components `.` at its
/// end.
pub open spec fn trimmed_len(bytes: Seq<u8>) -> nat
    decreases bytes.len(),
{
    if ends_in_filler(bytes) {
        trimmed_len(bytes.drop_last())
    } else {
        bytes.len()
    }
}

/// Where the run of bytes other than the separator that ends `bytes` begins.
pub open spec fn component_start(bytes: Seq<u8>) -> nat
    decreases bytes.len(),
{
    if bytes.len() > 0 && bytes.last() != SEPARATOR {
        component_start(bytes.drop_last())
    } else {
        bytes.len()
    }
}

/// The index just behind the last component of `path`.
pub open spec fn name_end(path: Seq<u8>) -> nat {
    trimmed_len(path)
}

/// The index at which the last component of `path` begins.
pub open spec fn name_start(path: Seq<u8>) -> nat {
    component_start(path.subrange(0, name_end(path) as int))
}

/// The last component of `path` that is neither empty nor `.`; empty where
/// there is none.
pub open spec fn last_component(path: Seq<u8>) -> Seq<u8> {
    path.subrange(name_start(path) as int, name_end(path) as int)
}

/// Whether `path` has a file name: it has a last component, and that is not
/// `..`.
pub open spec fn has_file_name(path: Seq<u8>) -> bool {
    name_end(path) > 0 && !is_parent_ref(last_component(path))
}

/// The file name of `path`, as `std::path::Path::file_name` gives it on Unix:
/// the last component, where empty components and components `.` are passed
/// over, and none where that component is `..` or there is no component. So
/// `dir/.` has the file name `dir`, and `..`, `dir/..`, `.`, `/` and the empty
/// path have none. A file name is therefore never `.` or `..`: a tool that
/// renames by the file name never renames a directory through one of its
/// aliases.
pub open spec fn file_name(path: Seq<u8>) -> Option<Seq<u8>> {
    if has_file_name(path) {
        Some(last_component(path))
    } else {
        None
    }
}

/// The directory that holds the file name of `path`: what precedes the name,
/// without the separators and components `.` between the two, of which the
/// root or a leading `.` stays where nothing else does. `None` when the path
/// is a bare file name, or has no file name.
pub open spec fn parent(path: Seq<u8>) -> Option<Seq<u8>> {
    let head = path.subrange(0, name_start(path) as int);
    if !has_file_name(path) || head.len() == 0 {
        None
    } else if trimmed_len(head) == 0 {
        Some(head.subrange(0, 1))
    } else {
        Some(head.subrange(0, trimmed_len(head) as int))
    }
}

/// `name` placed in the directory `dir`.
pub open spec fn join(dir: Seq<u8>, name: Seq<u8>) -> Seq<u8> {
    if dir.len() > 0 && dir.last() != SEPARATOR {
        dir + seq![SEPARATOR] + name
    } else {
        dir + name
    }
}

/// The sibling of `path` that is called `name`.
pub open spec fn with_file_name(path: Seq<u8>, name: Seq<u8>) -> Seq<u8> {
    match parent(path) {
        Some(dir) => join(dir, name),
        None => name,
    }
}

/// Whether `name` can be a file name: it is not empty, holds no separator, and
/// is neither `.` nor `..`.
pub open spec fn is_component(name: Seq<u8>) -> bool {
    &&& name.len() > 0
    &&& forall|i: int| 0 <= i < name.len() ==> name[i] != SEPARATOR
    &&& !is_self_ref(name)
    &&& !is_parent_ref(name)
}

/// Whether `dir` can be a parent: it is a single byte, as the root and `.`
/// are, or ends in a component that names something.
pub open spec fn is_directory(dir: Seq<u8>) -> bool {
    dir.len() > 0 && (dir.len() == 1 || trimmed_len(dir) == dir.len())
}

/// `component_start` is the one index from which on no separator stands and
/// before which stands one.
pub proof fn lemma_component_start_is(bytes: Seq<u8>, start: int)
    requires
        0 <= start <= bytes.len(),
        forall|i: int| start <= i < bytes.len() ==> bytes[i] != SEPARATOR,
        start > 0 ==> bytes[start - 1] == SEPARATOR,
    ensures
        component_start(bytes) == start,
    decreases bytes.len(),
{
    if bytes.len() > 0 && bytes.last() != SEPARATOR {
        lemma_component_start_is(bytes.drop_last(), start);
    }
}

/// What `trimmed_len` leaves does not end in what names nothing, and has
/// nothing more to lose.
pub proof fn lemma_trimmed_len(bytes: Seq<u8>)
    ensures
        trimmed_len(bytes) <= bytes.len(),
        !ends_in_filler(bytes.subrange(0, trimmed_len(bytes) as int)),
        trimmed_len(bytes.subrange(0, trimmed_len(bytes) as int)) == trimmed_len(bytes),
    decreases bytes.len(),
{
    if ends_in_filler(bytes) {
        let front = bytes.drop_last();
        lemma_trimmed_len(front);
        let kept = trimmed_len(front) as int;
        assert(bytes.subrange(0, kept) == front.subrange(0, kept));
    } else {
        assert(bytes.subrange(0, bytes.len() as int) == bytes);
    }
}

/// From `component_start` on no separator stands, and one stands before it.
pub proof fn lemma_component_start(bytes: Seq<u8>)
    ensures
        component_start(bytes) <= bytes.len(),
        forall|i: int| component_start(bytes) <= i < bytes.len() ==> bytes[i] != SEPARATOR,
        component_start(bytes) > 0 ==> bytes[component_start(bytes) - 1] == SEPARATOR,
    decreases bytes.len(),
{
    if bytes.len() > 0 && bytes.last() != SEPARATOR {
        let front = bytes.drop_last();
        lemma_component_start(front);
        assert forall|i: int| component_start(bytes) <= i < bytes.len() implies bytes[i]
            != SEPARATOR by {
            if i < front.len() {
                assert(bytes[i] == front[i]);
            }
        }
    }
}

/// The file name of a path is a component, and lies where the bounds say.
pub proof fn lemma_file_name(path: Seq<u8>)
    requires
        has_file_name(path),
    ensures
        0 <= name_start(path) < name_end(path) <= path.len(),
        file_name(path) matches Some(name) && is_component(name),
        name_start(path) > 0 ==> path[name_start(path) - 1] == SEPARATOR,
{
    let end = name_end(path) as int;
    let front = path.subrange(0, end);
    lemma_trimmed_len(path);
    lemma_component_start(front);
    lemma_component_start(front.drop_last());
    let start = name_start(path) as int;
    let name = path.subrange(start, end);
    assert forall|i: int| 0 <= i < name.len() implies name[i] != SEPARATOR by {
        assert(name[i] == front[start + i]);
    }
    if is_self_ref(name) {
        assert(name[0] == front[start]);
        assert(front.last() == DOT);
        if start > 0 {
            assert(front[end - 2] == SEPARATOR);
        }
        assert(ends_in_filler(front));
    }
}

/// A path that ends in a component, with a separator or nothing before it,
/// has that component as its file name.
pub proof fn lemma_ends_in_component(path: Seq<u8>, start: int)
    requires
        0 <= start < path.len(),
        start > 0 ==> path[start - 1] == SEPARATOR,
        is_component(path.subrange(start, path.len() as int)),
    ensures
        name_start(path) == start,
        name_end(path) == path.len(),
        file_name(path) == Some(path.subrange(start, path.len() as int)),
{
    let end = path.len() as int;
    let name = path.subrange(start, end);
    assert forall|i: int| start <= i < end implies path[i] != SEPARATOR by {
        assert(path[i] == name[i - start]);
    }
    assert(path.last() == name[name.len() - 1]);
    if path.last() == DOT {
        if end - 2 >= start {
            assert(path[end - 2] == name[end - 2 - start]);
        } else {
            assert(name.len() == 1);
            assert(name[0] == DOT);
        }
    }
    assert(!ends_in_filler(path));
    assert(path.subrange(0, end) == path);
    lemma_component_start_is(path, start);
}

/// The parent of a path, where it has one, is a directory.
pub proof fn lemma_parent_is_directory(path: Seq<u8>)
    ensures
        parent(path) matches Some(dir) ==> is_directory(dir),
{
    let head = path.subrange(0, name_start(path) as int);
    lemma_trimmed_len(head);
}

/// A component joined to a directory is the file name of the result, and the
/// directory its parent.
pub proof fn lemma_join(dir: Seq<u8>, name: Seq<u8>)
    requires
        is_directory(dir),
        is_component(name),
    ensures
        file_name(join(dir, name)) == Some(name),
        parent(join(dir, name)) == Some(dir),
{
    let joined = join(dir, name);
    let start = joined.len() - name.len();
    assert(joined.subrange(start, joined.len() as int) == name);
    lemma_ends_in_component(joined, start);
    let head = joined.subrange(0, start);
    if dir.last() == SEPARATOR {
        assert(dir.len() == 1) by {
            if dir.len() > 1 {
                assert(ends_in_filler(dir));
                lemma_trimmed_len(dir.drop_last());
            }
        }
        assert(head == dir);
        assert(ends_in_filler(head));
        assert(trimmed_len(head.drop_last()) == 0);
        assert(trimmed_len(head) == 0);
        assert(head.subrange(0, 1) == dir);
    } else {
        assert(head == dir + seq![SEPARATOR]);
        assert(ends_in_filler(head));
        assert(head.drop_last() == dir);
        assert(trimmed_len(head) == trimmed_len(dir));
        if trimmed_len(dir) == dir.len() {
            assert(head.subrange(0, dir.len() as int) == dir);
        } else {
            assert(ends_in_filler(dir));
            assert(trimmed_len(dir.drop_last()) == 0);
            assert(trimmed_len(dir) == 0);
            assert(head.subrange(0, 1) == dir);
        }
    }
}

/// A component placed beside the file name of `path` is the file name of the
/// result, and the parent stays.
pub proof fn lemma_with_file_name(path: Seq<u8>, name: Seq<u8>)
    requires
        has_file_name(path),
        is_component(name),
    ensures
        file_name(with_file_name(path, name)) == Some(name),
        parent(with_file_name(path, name)) == parent(path),
{
    lemma_parent_is_directory(path);
    match parent(path) {
        Some(dir) => {
            lemma_join(dir, name);
        },
        None => {
            assert(name.subrange(0, name.len() as int) == name);
            lemma_ends_in_component(name, 0);
            assert(name.subrange(0, 0).len() == 0);
        },
    }
}

/// Whether the first `end` bytes of `path` end in what names nothing.
fn filler_before(path: &[u8], end: usize) -> (filler: bool)
    requires
        end <= path@.len(),
    ensures
        filler == ends_in_filler(path@.subrange(0, end as int)),
{
    if end == 0 {
        false
    } else if path[end - 1] == SEPARATOR {
        true
    } else if path[end - 1] == DOT {
        end == 1 || path[end - 2] == SEPARATOR
    } else {
        false
    }
}

/// The length of the first `end` bytes of `path` without the separators and
/// the components `.` at their end.
fn trim(path: &[u8], end: usize) -> (kept: usize)
    requires
        end <= path@.len(),
    ensures
        kept == trimmed_len(path@.subrange(0, end as int)),
        kept <= end,
{
    let mut kept: usize = end;
    while filler_before(path, kept)
        invariant
            kept <= end <= path@.len(),
            trimmed_len(path@.subrange(0, end as int)) == trimmed_len(
                path@.subrange(0, kept as int),
            ),
        decreases kept,
    {
        assert(path@.subrange(0, kept as int).drop_last() == path@.subrange(0, kept - 1));
        kept -= 1;
    }
    kept
}

/// The bounds of the file name of `path`: where it begins and where it ends.
/// There are none where the path has no file name.
pub fn name_bounds(path: &[u8]) -> (bounds: Option<(usize, usize)>)
    ensures
        bounds is Some <==> has_file_name(path@),
        bounds matches Some((start, end)) ==> start == name_start(path@) && end == name_end(path@)
            && start < end <= path@.len(),
{
    assert(path@.subrange(0, path@.len() as int) == path@);
    let end = trim(path, path.len());
    let mut start: usize = end;
    while start > 0 && path[start - 1] != SEPARATOR
        invariant
            start <= end <= path@.len(),
            component_start(path@.subrange(0, end as int)) == component_start(
                path@.subrange(0, start as int),
            ),
        decreases start,
    {
        assert(path@.subrange(0, start as int).drop_last() == path@.subrange(0, start - 1));
        start -= 1;
    }
    if end == 0 {
        None
    } else if end - start == 2 && path[start] == DOT && path[start + 1] == DOT {
        None
    } else {
        proof {
            lemma_trimmed_len(path@);
            let front = path@.subrange(0, end as int);
            assert(front.last() == path@[end - 1]);
        }
        Some((start, end))
    }
}

/// Appends `bytes` to `out`.
pub fn append_bytes(out: &mut Vec<u8>, bytes: &[u8])
    ensures
        final(out)@ == old(out)@ + bytes@,
{
    let mut i: usize = 0;
    while i < bytes.len()
        invariant
            i <= bytes@.len(),
            out@ == old(out)@ + bytes@.subrange(0, i as int),
        decreases bytes@.len() - i,
    {
        out.push(bytes[i]);
        i += 1;
    }
    assert(bytes@.subrange(0, i as int) == bytes@);
}

/// The sibling of `path` that is called `name`. A path without a file name has
/// no sibling: it gives `name` alone.
pub fn sibling(path: &[u8], name: &[u8]) -> (out: Vec<u8>)
    ensures
        out@ == with_file_name(path@, name@),
{
    let mut out: Vec<u8> = Vec::new();
    match name_bounds(path) {
        Some((start, _)) => {
            if start > 0 {
                let ghost head = path@.subrange(0, start as int);
                let kept = trim(path, start);
                let dir_end: usize = if kept == 0 {
                    1
                } else {
                    kept
                };
                append_bytes(&mut out, slice_subrange(path, 0, dir_end));
                assert(head.subrange(0, dir_end as int) == path@.subrange(0, dir_end as int));
                if path[dir_end - 1] != SEPARATOR {
                    out.push(SEPARATOR);
                }
            }
        },
        None => {},
    }
    append_bytes(&mut out, name);
    out
}

} // verus!
