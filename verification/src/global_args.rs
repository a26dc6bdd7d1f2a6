//! The options that every tool of the family takes.

use vstd::prelude::*;

verus! {

/// What `GlobalArgs` holds.
pub struct GlobalArgsView {
    pub verbose: bool,
    pub hide_char: char,
}

/// The options that every tool takes.
#[derive(Debug)]
pub struct GlobalArgs {
    /// Whether the tool reports what it does.
    verbose: bool,
    /// The character that marks a file name as hidden.
    hide_char: char,
}

impl View for GlobalArgs {
    type V = GlobalArgsView;

    closed spec fn view(&self) -> GlobalArgsView {
        GlobalArgsView { verbose: self.verbose, hide_char: self.hide_char }
    }
}

impl GlobalArgs {
    /// The marker of a tool that was given none.
    pub const DEFAULT_HIDE_CHAR: char = '.';

    /// The options as given.
    pub fn new(verbose: bool, hide_char: char) -> (args: GlobalArgs)
        ensures
            args@ == (GlobalArgsView { verbose, hide_char }),
    {
        GlobalArgs { verbose, hide_char }
    }

    /// Whether the tool reports what it does.
    pub fn verbose(&self) -> (verbose: bool)
        ensures
            verbose == self@.verbose,
    {
        self.verbose
    }

    /// The character that marks a file name as hidden.
    pub fn hide_char(&self) -> (hide_char: char)
        ensures
            hide_char == self@.hide_char,
    {
        self.hide_char
    }
}

} // verus!
