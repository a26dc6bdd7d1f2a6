//! What the toggle tool is asked on its command line.

use vstd::prelude::*;

verus! {

/// What `Args` holds.
pub struct ArgsView {
    pub verbose: bool,
    pub hide_char: char,
    pub unhide: bool,
    pub hide: bool,
    pub file: Seq<u8>,
}

/// The command line of the toggle tool.
#[derive(Debug)]
pub struct Args {
    /// Whether the tool reports what it does.
    verbose: bool,
    /// The character that marks a file name as hidden.
    hide_char: char,
    /// Whether the file is to end up visible, whatever it is now.
    unhide: bool,
    /// Whether the file is to end up hidden, whatever it is now.
    hide: bool,
    /// The path of the file.
    file: Vec<u8>,
}

impl View for Args {
    type V = ArgsView;

    closed spec fn view(&self) -> ArgsView {
        ArgsView {
            verbose: self.verbose,
            hide_char: self.hide_char,
            unhide: self.unhide,
            hide: self.hide,
            file: self.file@,
        }
    }
}

impl Args {
    /// The command line as given.
    pub fn new(verbose: bool, hide_char: char, unhide: bool, hide: bool, file: Vec<u8>) -> (args:
        Args)
        ensures
            args@ == (ArgsView { verbose, hide_char, unhide, hide, file: file@ }),
    {
        Args { verbose, hide_char, unhide, hide, file }
    }

    /// The character that marks a file name as hidden.
    pub fn hide_char(&self) -> (hide_char: char)
        ensures
            hide_char == self@.hide_char,
    {
        self.hide_char
    }

    /// Whether the file is to end up visible, whatever it is now.
    pub fn unhide(&self) -> (unhide: bool)
        ensures
            unhide == self@.unhide,
    {
        self.unhide
    }

    /// Whether the file is to end up hidden, whatever it is now.
    pub fn force_hide(&self) -> (forced: bool)
        ensures
            forced == self@.hide,
    {
        self.hide
    }

    /// The path of the file.
    pub fn file(&self) -> (file: &Vec<u8>)
        ensures
            file@ == self@.file,
    {
        &self.file
    }

    /// Whether the tool reports what it does.
    pub fn verbose(&self) -> (verbose: bool)
        ensures
            verbose == self@.verbose,
    {
        self.verbose
    }
}

} // verus!
