//! What the combined tool is asked on its command line.

use vstd::prelude::*;

verus! {

/// What `HideArgs` holds.
pub struct HideArgsView {
    pub unhide: bool,
    pub hide: bool,
    pub file: Seq<u8>,
}

/// What `WithHiddenArgs` holds.
pub struct WithHiddenArgsView {
    pub file: Seq<u8>,
    pub command: Seq<Seq<char>>,
}

/// What `HiderSubCommand` holds.
pub enum HiderSubCommandView {
    Hide(HideArgsView),
    WithHide(WithHiddenArgsView),
}

/// What the `GlobalArgs` of the combined tool hold.
pub struct GlobalArgsView {
    pub verbose: bool,
    pub hide_char: char,
    pub command: Option<HiderSubCommandView>,
}

/// An argument set that names the file to work on.
pub trait FileCommandArgs {
    /// The path that `file` hands out.
    spec fn file_path(&self) -> Seq<u8>;

    /// The path of the file to work on.
    fn file(&self) -> (file: &[u8])
        ensures
            file@ == self.file_path(),
    ;
}

/// The arguments of the subcommand that toggles a file.
#[derive(Debug)]
pub struct HideArgs {
    /// Whether the file is to end up visible, whatever it is now.
    unhide: bool,
    /// Whether the file is to end up hidden, whatever it is now.
    hide: bool,
    /// The path of the file.
    file: Vec<u8>,
}

impl View for HideArgs {
    type V = HideArgsView;

    closed spec fn view(&self) -> HideArgsView {
        HideArgsView { unhide: self.unhide, hide: self.hide, file: self.file@ }
    }
}

impl HideArgs {
    /// The arguments as given.
    pub fn new(unhide: bool, hide: bool, file: Vec<u8>) -> (args: HideArgs)
        ensures
            args@ == (HideArgsView { unhide, hide, file: file@ }),
    {
        HideArgs { unhide, hide, file }
    }

    /// Whether the file is to end up visible, whatever it is now.
    pub fn unhide(&self) -> (unhide: bool)
        ensures
            unhide == self@.unhide,
    {
        self.unhide
    }

    /// Whether the file is to end up hidden, whatever it is now.
    pub fn force_hide(&self) -> (forced: bool)
        ensures
            forced == self@.hide,
    {
        self.hide
    }
}

impl FileCommandArgs for HideArgs {
    open spec fn file_path(&self) -> Seq<u8> {
        self@.file
    }

    fn file(&self) -> (file: &[u8]) {
        self.file.as_slice()
    }
}

/// The arguments of the subcommand that hides a file while a command runs.
#[derive(Debug)]
pub struct WithHiddenArgs {
    /// The path of the file.
    file: Vec<u8>,
    /// The command to run, and its arguments.
    command: Vec<String>,
}

impl View for WithHiddenArgs {
    type V = WithHiddenArgsView;

    closed spec fn view(&self) -> WithHiddenArgsView {
        WithHiddenArgsView { file: self.file@, command: self.command.deep_view() }
    }
}

impl WithHiddenArgs {
    /// The arguments as given.
    pub fn new(file: Vec<u8>, command: Vec<String>) -> (args: WithHiddenArgs)
        ensures
            args@ == (WithHiddenArgsView { file: file@, command: command.deep_view() }),
    {
        WithHiddenArgs { file, command }
    }

    /// The command to run, and its arguments.
    pub fn command(&self) -> (command: &Vec<String>)
        ensures
            command.deep_view() == self@.command,
    {
        &self.command
    }
}

impl FileCommandArgs for WithHiddenArgs {
    open spec fn file_path(&self) -> Seq<u8> {
        self@.file
    }

    fn file(&self) -> (file: &[u8]) {
        self.file.as_slice()
    }
}

/// What the combined tool is to do.
#[derive(Debug)]
pub enum HiderSubCommand {
    /// Toggle a file: hide it if it is visible, show it if it is hidden.
    Hide(HideArgs),
    /// Hide a file, run a command, and show the file again.
    WithHide(WithHiddenArgs),
}

impl View for HiderSubCommand {
    type V = HiderSubCommandView;

    open spec fn view(&self) -> HiderSubCommandView {
        match self {
            HiderSubCommand::Hide(args) => HiderSubCommandView::Hide(args@),
            HiderSubCommand::WithHide(args) => HiderSubCommandView::WithHide(args@),
        }
    }
}

/// The command line of the combined tool.
#[derive(Debug)]
pub struct GlobalArgs {
    /// Whether the tool reports what it does.
    verbose: bool,
    /// The character that marks a file name as hidden.
    hide_char: char,
    /// What the tool is to do, if it was told.
    command: Option<HiderSubCommand>,
}

impl View for GlobalArgs {
    type V = GlobalArgsView;

    closed spec fn view(&self) -> GlobalArgsView {
        GlobalArgsView {
            verbose: self.verbose,
            hide_char: self.hide_char,
            command: match self.command {
                Some(command) => Some(command@),
                None => None,
            },
        }
    }
}

impl GlobalArgs {
    /// The command line as given.
    pub fn new(verbose: bool, hide_char: char, command: Option<HiderSubCommand>) -> (args:
        GlobalArgs)
        ensures
            args@.verbose == verbose,
            args@.hide_char == hide_char,
            command is None ==> args@.command is None,
            command matches Some(given) ==> args@.command == Some(given@),
    {
        GlobalArgs { verbose, hide_char, command }
    }

    /// The character that marks a file name as hidden.
    pub fn hide_char(&self) -> (hide_char: char)
        ensures
            hide_char == self@.hide_char,
    {
        self.hide_char
    }

    /// Whether the tool reports what it does.
    pub fn verbose(&self) -> (verbose: bool)
        ensures
            verbose == self@.verbose,
    {
        self.verbose
    }

    /// What the tool is to do, if it was told.
    pub fn command(&self) -> (command: &Option<HiderSubCommand>)
        ensures
            command is None ==> self@.command is None,
            command matches Some(given) ==> self@.command == Some(given@),
    {
        &self.command
    }
}

} // verus!
