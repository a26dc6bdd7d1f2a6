//! What the scoped-hide tool is asked on its command line.

use vstd::prelude::*;
use crate::global_args::GlobalArgs;

verus! {

/// What becomes of the hidden file when the command fails.
#[derive(Debug, Clone, Copy, PartialEq, Eq, Structural)]
pub enum OnFailureMode {
    /// The file stays hidden.
    KeepHidden,
    /// The file is shown again all the same.
    UnHide,
}

impl OnFailureMode {
    /// The name of the mode on the command line.
    pub open spec fn spec_name(self) -> Seq<char> {
        match self {
            OnFailureMode::KeepHidden => "keep-hidden"@,
            OnFailureMode::UnHide => "un-hide"@,
        }
    }

    /// The name of the mode on the command line.
    pub fn name(&self) -> (name: &'static str)
        ensures
            name@ == self.spec_name(),
    {
        match self {
            OnFailureMode::KeepHidden => "keep-hidden",
            OnFailureMode::UnHide => "un-hide",
        }
    }
}

/// The command line of the scoped-hide tool.
#[derive(Debug)]
pub struct WithHideArgs {
    /// The options that every tool takes.
    pub global_args: GlobalArgs,
    /// What becomes of the hidden file when the command fails.
    pub on_failure: OnFailureMode,
    /// The path of the file to hide.
    pub file: Vec<u8>,
    /// The command to run while the file is hidden, and its arguments.
    pub command: Vec<String>,
}

} // verus!
