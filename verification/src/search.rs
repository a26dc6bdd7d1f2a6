//! A file that was asked for and is not there may be there in its other state.

use vstd::prelude::*;
use crate::err::AppError;
use crate::renaming::{auto_transition_file, has_text_name, name_refused, toggled_path};

verus! {

/// The path under which the file at `provided_path` would be in its other
/// state: the one to look for where `provided_path` does not exist. Fails as
/// `path_filename` does.
pub fn intended_path(provided_path: &[u8], hide_char: char) -> (r: Result<Vec<u8>, AppError>)
    ensures
        !has_text_name(provided_path@) ==> name_refused(provided_path@, r),
        has_text_name(provided_path@) ==> (r matches Ok(path) && path@ == toggled_path(
            provided_path@,
            hide_char,
        )),
{
    match auto_transition_file(provided_path, hide_char) {
        Ok(rename) => Ok(rename.to),
        Err(e) => Err(e),
    }
}

/// Whether `result` is what a look-up of `candidate` that ended as `found`
/// comes to: the candidate where it exists, nothing where it does not, and an
/// `IOError` where that could not be told.
pub open spec fn answers(
    candidate: Seq<u8>,
    found: Result<bool, std::io::Error>,
    result: Result<Option<Vec<u8>>, AppError>,
) -> bool {
    match found {
        Ok(exists) => if exists {
            result matches Ok(Some(path)) && path@ == candidate
        } else {
            result matches Ok(None)
        },
        Err(cause) => result matches Err(AppError::IOError { context, error }) && context@
            == "while trying to look up possibly intended file"@ && error == cause,
    }
}

/// What a look-up of `candidate` that ended as `found` comes to.
pub fn intended_file_from(candidate: Vec<u8>, found: Result<bool, std::io::Error>) -> (r: Result<
    Option<Vec<u8>>,
    AppError,
>)
    ensures
        answers(candidate@, found, r),
{
    match found {
        Ok(true) => Ok(Some(candidate)),
        Ok(false) => Ok(None),
        Err(error) => Err(
            AppError::IOError {
                context: String::from_str("while trying to look up possibly intended file"),
                error,
            },
        ),
    }
}

/// The file that was meant by `provided_path`, which does not exist: the file
/// in the other state, if there is one.
///
/// `found` is what the caller learnt when it looked for `intended_path` of the
/// same arguments: whether it exists, or why that could not be told. A path
/// without a text name fails as in `path_filename`, whatever was found. Else
/// the result is the intended path where it was found, nothing where it was
/// not, and an `IOError` where the look-up failed.
pub fn find_intended_file(
    provided_path: &[u8],
    hide_char: char,
    found: Result<bool, std::io::Error>,
) -> (r: Result<Option<Vec<u8>>, AppError>)
    ensures
        !has_text_name(provided_path@) ==> name_refused(provided_path@, r),
        has_text_name(provided_path@) ==> answers(
            toggled_path(provided_path@, hide_char),
            found,
            r,
        ),
{
    match intended_path(provided_path, hide_char) {
        Ok(possibly_intended_path) => intended_file_from(possibly_intended_path, found),
        Err(e) => Err(e),
    }
}

} // verus!
