//! Hidden and visible: the state of a file as its name tells it, the path of
//! the other state, and the rename that leads there.

use vstd::prelude::*;
use vstd::slice::{slice_subrange, slice_to_vec};
use vstd::string::*;
use vstd::utf8::*;
use crate::err::AppError;
use crate::path::{
    append_bytes, file_name, has_file_name, is_component, is_directory, join,
    lemma_ends_in_component, lemma_file_name, lemma_join, lemma_with_file_name, name_bounds, parent,
    sibling, with_file_name,
};
use crate::text::{
    encode_marker, lemma_encode_first, lemma_marked_text, lemma_marker_bytes, lemma_split_first,
    marker_bytes, marker_width, utf8_text,
};

verus! {

/// Whether `path` has a file name that is valid UTF-8.
pub open spec fn has_text_name(path: Seq<u8>) -> bool {
    file_name(path) matches Some(name) && valid_utf8(name)
}

/// The file name of `path` as text, for a path that `has_text_name`.
pub open spec fn name_text(path: Seq<u8>) -> Seq<char> {
    decode_utf8(file_name(path)->0)
}

/// Whether `result` is the error that a path without a text name is refused
/// with: `NoFileName` where it has no file name, `FileNameNotUnicode` where
/// the file name is not valid UTF-8.
pub open spec fn name_refused<T>(path: Seq<u8>, result: Result<T, AppError>) -> bool {
    if has_file_name(path) {
        result matches Err(AppError::FileNameNotUnicode)
    } else {
        result matches Err(AppError::NoFileName)
    }
}

/// Whether the file at `path` is hidden: its name starts with `hide_char`.
pub open spec fn is_hidden(path: Seq<u8>, hide_char: char) -> bool {
    has_text_name(path) && name_text(path)[0] == hide_char
}

/// The path under which the file at `path` is hidden: `hide_char` is put before
/// its name.
pub open spec fn hidden_path(path: Seq<u8>, hide_char: char) -> Seq<u8> {
    with_file_name(path, encode_utf8(seq![hide_char] + name_text(path)))
}

/// The path under which the file at `path` is visible: the first character is
/// taken off its name.
pub open spec fn unhidden_path(path: Seq<u8>, hide_char: char) -> Seq<u8> {
    with_file_name(path, unmarked_name(path))
}

/// The path of the other state: visible for a hidden file, hidden for a
/// visible one.
pub open spec fn toggled_path(path: Seq<u8>, hide_char: char) -> Seq<u8> {
    if is_hidden(path, hide_char) {
        unhidden_path(path, hide_char)
    } else {
        hidden_path(path, hide_char)
    }
}

/// `path` as its parent and its file name give it: without separators at the
/// end, and with one separator before the name.
pub open spec fn rejoined(path: Seq<u8>) -> Seq<u8> {
    with_file_name(path, file_name(path)->0)
}

/// Whether `path` is written as its parent and its file name give it.
pub open spec fn is_plain(path: Seq<u8>) -> bool {
    has_file_name(path) && rejoined(path) == path
}

/// A rename that the caller is to make.
#[derive(Debug)]
pub struct Rename {
    /// The path of the file as it is.
    pub from: Vec<u8>,
    /// The path that it is to have.
    pub to: Vec<u8>,
}

/// What a request to hide or to show a file comes to.
#[derive(Debug)]
pub enum Change {
    /// The file is in the wanted state already: nothing is renamed, and the
    /// file stays at this path.
    Keep(Vec<u8>),
    /// The file gets there by this rename.
    Move(Rename),
}

impl Change {
    /// The path of the file once the change is made.
    pub open spec fn target(self) -> Seq<u8> {
        match self {
            Change::Keep(path) => path@,
            Change::Move(rename) => rename.to@,
        }
    }

    /// The path of the file once the change is made.
    pub fn destination(&self) -> (path: &Vec<u8>)
        ensures
            path@ == self.target(),
    {
        match self {
            Change::Keep(path) => path,
            Change::Move(rename) => &rename.to,
        }
    }
}

/// The file name of `path` as text.
///
/// Fails with `NoFileName` where the path has no file name: the root, the
/// empty path, `.`, and every path whose last component is `..`. Fails with
/// `FileNameNotUnicode` where the file name is not valid UTF-8.
pub fn path_filename<'a>(path: &'a [u8]) -> (r: Result<&'a str, AppError>)
    ensures
        !has_text_name(path@) ==> name_refused(path@, r),
        has_text_name(path@) ==> (r matches Ok(name) && name@ == name_text(path@)),
{
    match name_bounds(path) {
        Some((start, end)) => match utf8_text(slice_subrange(path, start, end)) {
            Some(name) => {
                proof {
                    encode_utf8_decode_utf8(name@);
                }
                Ok(name)
            },
            None => Err(AppError::FileNameNotUnicode),
        },
        None => Err(AppError::NoFileName),
    }
}

/// Whether the file at `path` is hidden: whether its name starts with
/// `hide_char`. Fails as `path_filename` does.
pub fn file_is_hidden(path: &[u8], hide_char: char) -> (r: Result<bool, AppError>)
    ensures
        !has_text_name(path@) ==> name_refused(path@, r),
        has_text_name(path@) ==> (r matches Ok(hidden) && hidden == is_hidden(path@, hide_char)),
{
    match path_filename(path) {
        Ok(name) => {
            proof {
                lemma_file_name(path@);
                lemma_split_first(file_name(path@)->0);
            }
            Ok(name.get_char(0) == hide_char)
        },
        Err(e) => Err(e),
    }
}

/// The path under which the file at `path` is hidden: `hide_char` is put before
/// the file name, whatever the name starts with. Fails as `path_filename` does.
pub fn hide_file_path(path: &[u8], hide_char: char) -> (r: Result<Vec<u8>, AppError>)
    ensures
        !has_text_name(path@) ==> name_refused(path@, r),
        has_text_name(path@) ==> (r matches Ok(hidden) && hidden@ == hidden_path(
            path@,
            hide_char,
        )),
{
    match path_filename(path) {
        Ok(name) => {
            let mut hidden_name = encode_marker(hide_char);
            append_bytes(&mut hidden_name, name.as_bytes());
            proof {
                lemma_encode_first(hide_char, name@);
            }
            Ok(sibling(path, hidden_name.as_slice()))
        },
        Err(e) => Err(e),
    }
}

/// The path under which the hidden file at `path` is visible: the marker is
/// taken off the file name, once. Fails as `path_filename` does.
///
/// The file name has to start with `hide_char`: classify the path first.
pub fn unhide_file_path(path: &[u8], hide_char: char) -> (r: Result<Vec<u8>, AppError>)
    requires
        has_text_name(path@) ==> is_hidden(path@, hide_char),
    ensures
        !has_text_name(path@) ==> name_refused(path@, r),
        has_text_name(path@) ==> (r matches Ok(shown) && shown@ == unhidden_path(
            path@,
            hide_char,
        )),
{
    match path_filename(path) {
        Ok(name) => {
            let bytes = name.as_bytes();
            let width = marker_width(hide_char);
            proof {
                lemma_file_name(path@);
                decode_utf8_encode_utf8(file_name(path@)->0);
                encode_utf8_decode_utf8(name@);
                lemma_split_first(bytes@);
                assert(bytes@.subrange(width as int, bytes@.len() as int) == encode_utf8(
                    name@.drop_first(),
                ));
            }
            Ok(sibling(path, slice_subrange(bytes, width, bytes.len())))
        },
        Err(e) => Err(e),
    }
}

/// Decides how the file at `path` gets hidden: not at all where it is hidden
/// already, else by a rename to its hidden path. Fails as `path_filename`
/// does. The rename is left to the caller.
pub fn hide_file(path: &[u8], hide_char: char) -> (r: Result<Change, AppError>)
    ensures
        !has_text_name(path@) ==> name_refused(path@, r),
        has_text_name(path@) && is_hidden(path@, hide_char) ==> (r matches Ok(Change::Keep(kept))
            && kept@ == path@),
        has_text_name(path@) && !is_hidden(path@, hide_char) ==> (r matches Ok(
            Change::Move(rename),
        ) && rename.from@ == path@ && rename.to@ == hidden_path(path@, hide_char)),
        has_text_name(path@) ==> (r matches Ok(change) && change.target() == hide_target(
            path@,
            hide_char,
        )),
{
    match file_is_hidden(path, hide_char) {
        Ok(true) => Ok(Change::Keep(slice_to_vec(path))),
        Ok(false) => match hide_file_path(path, hide_char) {
            Ok(to) => Ok(Change::Move(Rename { from: slice_to_vec(path), to })),
            Err(e) => Err(e),
        },
        Err(e) => Err(e),
    }
}

/// Decides how the file at `path` gets visible: not at all where it is visible
/// already, else by a rename to its visible path. Fails as `path_filename`
/// does. The rename is left to the caller.
pub fn unhide_file(path: &[u8], hide_char: char) -> (r: Result<Change, AppError>)
    ensures
        !has_text_name(path@) ==> name_refused(path@, r),
        has_text_name(path@) && !is_hidden(path@, hide_char) ==> (r matches Ok(Change::Keep(kept))
            && kept@ == path@),
        has_text_name(path@) && is_hidden(path@, hide_char) ==> (r matches Ok(
            Change::Move(rename),
        ) && rename.from@ == path@ && rename.to@ == unhidden_path(path@, hide_char)),
        has_text_name(path@) ==> (r matches Ok(change) && change.target() == unhide_target(
            path@,
            hide_char,
        )),
{
    match file_is_hidden(path, hide_char) {
        Ok(false) => Ok(Change::Keep(slice_to_vec(path))),
        Ok(true) => match unhide_file_path(path, hide_char) {
            Ok(to) => Ok(Change::Move(Rename { from: slice_to_vec(path), to })),
            Err(e) => Err(e),
        },
        Err(e) => Err(e),
    }
}

/// Decides the rename that puts the file at `path` into its other state: a
/// hidden file is shown, a visible one hidden. Fails as `path_filename` does.
/// The rename is left to the caller.
pub fn auto_transition_file(general_path: &[u8], hide_char: char) -> (r: Result<Rename, AppError>)
    ensures
        !has_text_name(general_path@) ==> name_refused(general_path@, r),
        has_text_name(general_path@) ==> (r matches Ok(rename) && rename.from@ == general_path@
            && rename.to@ == toggled_path(general_path@, hide_char)),
{
    let destination_path = match file_is_hidden(general_path, hide_char) {
        Ok(true) => unhide_file_path(general_path, hide_char),
        Ok(false) => hide_file_path(general_path, hide_char),
        Err(e) => Err(e),
    };
    match destination_path {
        Ok(to) => Ok(Rename { from: slice_to_vec(general_path), to }),
        Err(e) => Err(e),
    }
}

/// What the caller of `hide_file`, `unhide_file` or `auto_transition_file` has
/// in hand once it has tried the rename: the new path, or the failure as an
/// `IOError` whose context is `rename`.
pub fn rename_outcome(rename: Rename, outcome: Result<(), std::io::Error>) -> (r: Result<
    Vec<u8>,
    AppError,
>)
    ensures
        outcome is Ok ==> (r matches Ok(path) && path@ == rename.to@),
        outcome matches Err(cause) ==> (r matches Err(AppError::IOError { context, error })
            && context@ == "rename"@ && error == cause),
{
    match outcome {
        Ok(()) => Ok(rename.to),
        Err(error) => Err(AppError::IOError { context: String::from_str("rename"), error }),
    }
}

/// The path at which a file is once it was asked to be hidden.
pub open spec fn hide_target(path: Seq<u8>, hide_char: char) -> Seq<u8> {
    if is_hidden(path, hide_char) {
        path
    } else {
        hidden_path(path, hide_char)
    }
}

/// The path at which a file is once it was asked to be visible.
pub open spec fn unhide_target(path: Seq<u8>, hide_char: char) -> Seq<u8> {
    if is_hidden(path, hide_char) {
        unhidden_path(path, hide_char)
    } else {
        path
    }
}

/// A rejoined path is plain, and has the file name and the parent of the path
/// it was made from.
pub proof fn lemma_rejoined(path: Seq<u8>)
    requires
        has_file_name(path),
    ensures
        is_plain(rejoined(path)),
        file_name(rejoined(path)) == file_name(path),
        parent(rejoined(path)) == parent(path),
{
    lemma_file_name(path);
    lemma_with_file_name(path, file_name(path)->0);
}

/// A file name alone is a plain path.
pub proof fn lemma_bare_name_is_plain(name: Seq<u8>)
    requires
        is_component(name),
    ensures
        is_plain(name),
        file_name(name) == Some(name),
        parent(name) is None,
{
    assert(name.subrange(0, name.len() as int) == name);
    lemma_ends_in_component(name, 0);
    assert(name.subrange(0, 0).len() == 0);
}

/// A file name joined to a directory is a plain path.
pub proof fn lemma_joined_is_plain(dir: Seq<u8>, name: Seq<u8>)
    requires
        is_directory(dir),
        is_component(name),
    ensures
        is_plain(join(dir, name)),
{
    lemma_join(dir, name);
}

/// What is left of the file name of `path` once its first character is taken
/// off, as bytes.
pub open spec fn unmarked_name(path: Seq<u8>) -> Seq<u8> {
    encode_utf8(name_text(path).drop_first())
}

/// The hidden path in detail: its file name is that of `path` behind the
/// marker, and its parent is that of `path`.
pub proof fn lemma_hidden_path(path: Seq<u8>, hide_char: char)
    requires
        has_text_name(path),
        hide_char != '/',
    ensures
        has_text_name(hidden_path(path, hide_char)),
        file_name(hidden_path(path, hide_char)) == Some(
            marker_bytes(hide_char) + file_name(path)->0,
        ),
        name_text(hidden_path(path, hide_char)) == seq![hide_char] + name_text(path),
        parent(hidden_path(path, hide_char)) == parent(path),
{
    let name = file_name(path)->0;
    let hidden_name = marker_bytes(hide_char) + name;
    lemma_file_name(path);
    lemma_marker_bytes(hide_char);
    lemma_encode_first(hide_char, name_text(path));
    decode_utf8_encode_utf8(name);
    lemma_marked_text(hide_char, name);
    if hidden_name.len() == 2 {
        assert(hidden_name[1] == name[0]);
    }
    assert(is_component(hidden_name));
    lemma_with_file_name(path, hidden_name);
}

/// The visible path in detail: its file name is that of `path` without its
/// first character, and its parent is that of `path`. This takes a name of
/// which enough is left to be a file name: not nothing, not `.` and not `..`.
pub proof fn lemma_unhidden_path(path: Seq<u8>, hide_char: char)
    requires
        has_text_name(path),
        is_component(unmarked_name(path)),
    ensures
        has_text_name(unhidden_path(path, hide_char)),
        file_name(unhidden_path(path, hide_char)) == Some(unmarked_name(path)),
        name_text(unhidden_path(path, hide_char)) == name_text(path).drop_first(),
        name_text(path).len() >= 2,
        parent(unhidden_path(path, hide_char)) == parent(path),
{
    let rest = name_text(path).drop_first();
    lemma_file_name(path);
    lemma_split_first(file_name(path)->0);
    encode_utf8_valid_utf8(rest);
    encode_utf8_decode_utf8(rest);
    lemma_with_file_name(path, unmarked_name(path));
}

/// Whatever marker but `/` a file is hidden with, the path that it is hidden
/// under classifies as hidden.
pub proof fn hidden_path_is_hidden(path: Seq<u8>, hide_char: char)
    requires
        has_text_name(path),
        hide_char != '/',
    ensures
        is_hidden(hidden_path(path, hide_char), hide_char),
{
    lemma_hidden_path(path, hide_char);
}

/// The visible path of a hidden file classifies as visible, where what is
/// left of the name is a file name and does not start with the marker again.
pub proof fn unhidden_path_is_visible(path: Seq<u8>, hide_char: char)
    requires
        is_hidden(path, hide_char),
        is_component(unmarked_name(path)),
        name_text(path)[1] != hide_char,
    ensures
        has_text_name(unhidden_path(path, hide_char)),
        !is_hidden(unhidden_path(path, hide_char), hide_char),
{
    lemma_unhidden_path(path, hide_char);
}

/// Hiding a file and showing it again leads back: to the path as its parent and
/// name give it, which is the path itself where that is plain.
pub proof fn unhide_undoes_hide(path: Seq<u8>, hide_char: char)
    requires
        has_text_name(path),
        hide_char != '/',
    ensures
        unhidden_path(hidden_path(path, hide_char), hide_char) == rejoined(path),
        is_plain(path) ==> unhidden_path(hidden_path(path, hide_char), hide_char) == path,
{
    let hidden = hidden_path(path, hide_char);
    lemma_hidden_path(path, hide_char);
    assert(name_text(hidden).drop_first() == name_text(path));
    decode_utf8_encode_utf8(file_name(path)->0);
}

/// Hiding is idempotent: once a file was asked to be hidden it is hidden, and
/// asking again leaves it where it is.
pub proof fn hide_is_idempotent(path: Seq<u8>, hide_char: char)
    requires
        has_text_name(path),
        hide_char != '/',
    ensures
        is_hidden(hide_target(path, hide_char), hide_char),
        hide_target(hide_target(path, hide_char), hide_char) == hide_target(path, hide_char),
{
    if !is_hidden(path, hide_char) {
        lemma_hidden_path(path, hide_char);
    }
}

/// Showing is idempotent, where what is left of the name of a hidden file is
/// a file name and does not start with the marker again.
pub proof fn unhide_is_idempotent(path: Seq<u8>, hide_char: char)
    requires
        has_text_name(path),
        is_hidden(path, hide_char) ==> is_component(unmarked_name(path)) && name_text(path)[1]
            != hide_char,
    ensures
        !is_hidden(unhide_target(path, hide_char), hide_char),
        unhide_target(unhide_target(path, hide_char), hide_char) == unhide_target(
            path,
            hide_char,
        ),
{
    if is_hidden(path, hide_char) {
        lemma_unhidden_path(path, hide_char);
    }
}

/// Toggling twice leads back: to the path as its parent and name give it,
/// which is the path itself where that is plain. For a hidden file this takes
/// a name of which what is left is a file name and does not start with the
/// marker again.
pub proof fn toggle_twice_restores(path: Seq<u8>, hide_char: char)
    requires
        has_text_name(path),
        hide_char != '/',
        is_hidden(path, hide_char) ==> is_component(unmarked_name(path)) && name_text(path)[1]
            != hide_char,
    ensures
        toggled_path(toggled_path(path, hide_char), hide_char) == rejoined(path),
        is_plain(path) ==> toggled_path(toggled_path(path, hide_char), hide_char) == path,
{
    if is_hidden(path, hide_char) {
        let text = name_text(path);
        lemma_unhidden_path(path, hide_char);
        assert(seq![hide_char] + text.drop_first() == text);
        decode_utf8_encode_utf8(file_name(path)->0);
    } else {
        hidden_path_is_hidden(path, hide_char);
        unhide_undoes_hide(path, hide_char);
    }
}

} // verus!
