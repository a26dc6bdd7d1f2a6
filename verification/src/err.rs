//! The errors of the library, and how each reads.

use vstd::prelude::*;
use vstd::string::*;
use vstd::utf8::*;

verus! {

#[verifier::external_type_specification]
#[verifier::external_body]
pub struct ExIoError(std::io::Error);

/// Everything that can go wrong while a file is classified or renamed.
#[derive(Debug)]
pub enum AppError {
    /// The command line asks for contradictory things.
    InvalidCommand(String),
    /// The path has no file name.
    NoFileName,
    /// The file name of the path is not valid UTF-8.
    FileNameNotUnicode,
    /// Nothing exists under the path, which is given as bytes.
    FileDoesNotExist(Vec<u8>),
    /// The filesystem refused an operation; `context` names the operation.
    IOError { context: String, error: std::io::Error },
}

/// How a path reads in a message: as its text where it is valid UTF-8, else
/// with a replacement character for what is not.
pub uninterp spec fn lossy_text(path: Seq<u8>) -> Seq<char>;

/// How `path` reads in a message. Calls `String::from_utf8_lossy`, of which
/// this is believed: its result depends on the bytes alone, and is their text
/// where they are valid UTF-8.
#[verifier::external_body]
pub(crate) fn display_text(path: &[u8]) -> (text: String)
    ensures
        text@ == lossy_text(path@),
        valid_utf8(path@) ==> text@ == decode_utf8(path@),
{
    String::from_utf8_lossy(path).into_owned()
}

/// How `error` reads in a message. Calls `to_string` of `std::io::Error`;
/// nothing is claimed of the text, which the operating system words.
#[verifier::external_body]
pub(crate) fn cause_text(error: &std::io::Error) -> (text: String) {
    error.to_string()
}

/// The message for an operation that failed: the operation, then the cause.
pub open spec fn io_message(context: Seq<char>, cause: Seq<char>) -> Seq<char> {
    "I/O error encountered while "@ + context + ": "@ + cause
}

/// The message for an operation that failed.
pub fn io_error_message(context: &str, cause: &str) -> (text: String)
    ensures
        text@ == io_message(context@, cause@),
{
    let mut text = String::from_str("I/O error encountered while ");
    text.append(context);
    text.append(": ");
    text.append(cause);
    text
}

impl AppError {
    /// Whether `text` is a message of this error. All but `IOError` have one
    /// message; that of `IOError` ends in the cause as the system words it.
    pub open spec fn reads_as(self, text: Seq<char>) -> bool {
        match self {
            AppError::InvalidCommand(msg) => text == "Invalid Command: "@ + msg@,
            AppError::NoFileName => text
                == "Provided path has no file name, so nothing can be (un)hidden"@,
            AppError::FileNameNotUnicode => text
                == "File name is not in unicode, so cannot be processed"@,
            AppError::FileDoesNotExist(path) => text == "the provided file path '"@ + lossy_text(
                path@,
            ) + "' does not exist"@,
            AppError::IOError { context, error } => exists|cause: Seq<char>|
                text == io_message(context@, cause),
        }
    }

    /// The message of this error.
    pub fn message(&self) -> (text: String)
        ensures
            self.reads_as(text@),
    {
        match self {
            AppError::InvalidCommand(msg) => {
                let mut text = String::from_str("Invalid Command: ");
                text.append(msg.as_str());
                text
            },
            AppError::NoFileName => String::from_str(
                "Provided path has no file name, so nothing can be (un)hidden",
            ),
            AppError::FileNameNotUnicode => String::from_str(
                "File name is not in unicode, so cannot be processed",
            ),
            AppError::FileDoesNotExist(path) => {
                let shown = display_text(path.as_slice());
                let mut text = String::from_str("the provided file path '");
                text.append(shown.as_str());
                text.append("' does not exist");
                text
            },
            AppError::IOError { context, error } => {
                let cause = cause_text(error);
                io_error_message(context.as_str(), cause.as_str())
            },
        }
    }
}

} // verus!
