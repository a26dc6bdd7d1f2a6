//! Hiding a file for as long as a command runs, as a state machine.
//!
//! The machine decides; its caller acts. `begin` and `step` hand out an
//! `Action`, the caller performs it and reports what came of it as an `Event`.
//! The file is `Visible` until the rename that hides it has succeeded, `Hidden`
//! while the command runs, and the run is over in `Restored`.

use vstd::prelude::*;
use vstd::slice::slice_to_vec;
use crate::err::AppError;
use crate::renaming::{
    has_text_name, hidden_path, hide_file, is_hidden, name_refused, unhidden_path, unhide_file,
    Change, Rename,
};
use crate::with_hide::args::{OnFailureMode, WithHideArgs};

verus! {

/// How the tool ends where nothing went wrong with the file.
#[derive(Debug, Clone, Copy, PartialEq, Eq, Structural)]
pub enum Exit {
    /// The command succeeded, or there was none.
    Success,
    /// The command failed.
    Failure,
}

/// Where a run stands.
#[derive(Debug)]
pub enum State {
    /// The file is under the path that was given; whether it exists was asked.
    Visible,
    /// The file is under the path that was given; the rename to `hidden` was
    /// asked for.
    Hiding { hidden: Vec<u8> },
    /// The file is hidden under `path`; the command was started.
    Hidden { path: Vec<u8> },
    /// The command has ended as `exit` tells; the rename that shows the file
    /// again was asked for.
    Restoring { exit: Exit },
    /// The run is over.
    Restored,
}

/// What the caller reports.
#[derive(Debug)]
pub enum Event {
    /// Whether the path of the last `Probe` exists, or why that cannot be told.
    Probed(Result<bool, std::io::Error>),
    /// What came of the last `Rename`.
    Renamed(Result<(), std::io::Error>),
    /// The command has ended, with success or without.
    CommandExited { success: bool },
}

/// What the caller is to do next.
#[derive(Debug)]
pub enum Action {
    /// Tell whether this path exists.
    Probe(Vec<u8>),
    /// Make this rename.
    Rename(Rename),
    /// Run the command and wait for it.
    Run,
    /// End the run with this status.
    Exit(Exit),
    /// End the run with this error.
    Fail(AppError),
}

impl State {
    /// Whether `event` answers the action that this state waits on.
    pub open spec fn awaits(self, event: Event) -> bool {
        match self {
            State::Visible => event is Probed,
            State::Hiding { .. } => event is Renamed,
            State::Hidden { .. } => event is CommandExited,
            State::Restoring { .. } => event is Renamed,
            State::Restored => false,
        }
    }
}

/// The status of a command that ended with `success` or without.
pub open spec fn exit_of(success: bool) -> Exit {
    if success {
        Exit::Success
    } else {
        Exit::Failure
    }
}

/// Whether `action` ends the run with an `IOError` for `cause`, met while
/// doing what `context` names.
pub open spec fn fails_on(action: Action, context: Seq<char>, cause: std::io::Error) -> bool {
    action matches Action::Fail(AppError::IOError { context: named, error }) && named@ == context
        && error == cause
}

/// Whether `action` asks for the rename of `from` to `to`.
pub open spec fn renames(action: Action, from: Seq<u8>, to: Seq<u8>) -> bool {
    action matches Action::Rename(rename) && rename.from@ == from && rename.to@ == to
}

/// Whether the run starts with `state` and `action`: with nothing to do where
/// no command was given, else by asking whether the file exists.
pub open spec fn starts(args: &WithHideArgs, state: State, action: Action) -> bool {
    if args.command@.len() == 0 {
        state is Restored && action == Action::Exit(Exit::Success)
    } else {
        state is Visible && (action matches Action::Probe(path) && path@ == args.file@)
    }
}

/// Whether the file that was found to exist is dealt with by `next` and
/// `action`: a hidden file is left as it is and the command run, a visible one
/// is renamed first, and one without a text name ends the run.
pub open spec fn enters(args: &WithHideArgs, next: State, action: Action) -> bool {
    let file = args.file@;
    let hide_char = args.global_args@.hide_char;
    if !has_text_name(file) {
        next is Restored && (action matches Action::Fail(e) && name_refused(
            file,
            Err::<(), AppError>(e),
        ))
    } else if is_hidden(file, hide_char) {
        (next matches State::Hidden { path } && path@ == file) && action is Run
    } else {
        (next matches State::Hiding { hidden } && hidden@ == hidden_path(file, hide_char))
            && renames(action, file, hidden_path(file, hide_char))
    }
}

/// Whether the file hidden under `path` is dealt with by `next` and `action`
/// once the command has ended as `exit` tells and the file is to be shown
/// again: by the rename to its visible path, or by the end of the run where
/// the path is not hidden or has no text name.
pub open spec fn restores(
    path: Seq<u8>,
    hide_char: char,
    exit: Exit,
    next: State,
    action: Action,
) -> bool {
    if !has_text_name(path) {
        next is Restored && (action matches Action::Fail(e) && name_refused(
            path,
            Err::<(), AppError>(e),
        ))
    } else if is_hidden(path, hide_char) {
        next == (State::Restoring { exit }) && renames(
            action,
            path,
            unhidden_path(path, hide_char),
        )
    } else {
        next is Restored && action == Action::Exit(exit)
    }
}

/// Whether `next` and `action` are what follows `state` on `event`.
///
/// * `Visible`: a file that exists is dealt with as `enters` tells; one that
///   does not ends the run with `FileDoesNotExist`, a failed look-up with an
///   `IOError` for the existence check.
/// * `Hiding`: once the rename has succeeded the file is `Hidden` and the
///   command is run; a failed rename ends the run.
/// * `Hidden`: after a command that failed, the mode `KeepHidden` ends the run
///   with `Failure` and no rename. Else the file is shown again as `restores`
///   tells, and the status of the command is kept for the end.
/// * `Restoring`: once the rename has succeeded the run ends with the status
///   of the command; a failed rename ends the run with its error.
pub open spec fn follows(
    args: &WithHideArgs,
    state: State,
    event: Event,
    next: State,
    action: Action,
) -> bool {
    let file = args.file@;
    let hide_char = args.global_args@.hide_char;
    match (state, event) {
        (State::Visible, Event::Probed(Ok(exists))) => if exists {
            enters(args, next, action)
        } else {
            next is Restored && (action matches Action::Fail(AppError::FileDoesNotExist(path))
                && path@ == file)
        },
        (State::Visible, Event::Probed(Err(cause))) => next is Restored && fails_on(
            action,
            "existence check"@,
            cause,
        ),
        (State::Hiding { hidden }, Event::Renamed(Ok(_))) => (next matches State::Hidden { path }
            && path@ == hidden@) && action is Run,
        (State::Hiding { .. }, Event::Renamed(Err(cause))) => next is Restored && fails_on(
            action,
            "rename"@,
            cause,
        ),
        (State::Hidden { path }, Event::CommandExited { success }) => if !success
            && args.on_failure == OnFailureMode::KeepHidden {
            next is Restored && action == Action::Exit(Exit::Failure)
        } else {
            restores(path@, hide_char, exit_of(success), next, action)
        },
        (State::Restoring { exit }, Event::Renamed(Ok(_))) => next is Restored && action
            == Action::Exit(exit),
        (State::Restoring { .. }, Event::Renamed(Err(cause))) => next is Restored && fails_on(
            action,
            "rename"@,
            cause,
        ),
        _ => false,
    }
}

/// The `IOError` for `cause`, met while doing what `context` names.
fn io_failure(context: &str, cause: std::io::Error) -> (action: Action)
    ensures
        fails_on(action, context@, cause),
{
    Action::Fail(AppError::IOError { context: String::from_str(context), error: cause })
}

/// Starts a run: nothing is done where no command was given, else the caller
/// is asked whether the file exists.
pub fn begin(args: &WithHideArgs) -> (r: (State, Action))
    ensures
        starts(args, r.0, r.1),
{
    if args.command.len() == 0 {
        (State::Restored, Action::Exit(Exit::Success))
    } else {
        (State::Visible, Action::Probe(slice_to_vec(args.file.as_slice())))
    }
}

/// What a file that exists leads to.
fn enter(args: &WithHideArgs) -> (r: (State, Action))
    ensures
        enters(args, r.0, r.1),
{
    match hide_file(args.file.as_slice(), args.global_args.hide_char()) {
        Ok(Change::Keep(path)) => (State::Hidden { path }, Action::Run),
        Ok(Change::Move(rename)) => (
            State::Hiding { hidden: slice_to_vec(rename.to.as_slice()) },
            Action::Rename(rename),
        ),
        Err(e) => (State::Restored, Action::Fail(e)),
    }
}

/// What the end of the command leads to where the file is to be shown again.
fn restore(path: &[u8], hide_char: char, exit: Exit) -> (r: (State, Action))
    ensures
        restores(path@, hide_char, exit, r.0, r.1),
{
    match unhide_file(path, hide_char) {
        Ok(Change::Keep(_)) => (State::Restored, Action::Exit(exit)),
        Ok(Change::Move(rename)) => (State::Restoring { exit }, Action::Rename(rename)),
        Err(e) => (State::Restored, Action::Fail(e)),
    }
}

/// Takes the run one step on: from `state` and what the caller reports to the
/// next state and the next action, as `follows` tells. Nothing is handed out
/// for an event that `state` does not wait on, and none ever in `Restored`.
pub fn step(args: &WithHideArgs, state: &State, event: Event) -> (r: Option<(State, Action)>)
    ensures
        r is Some <==> state.awaits(event),
        r matches Some((next, action)) ==> follows(args, *state, event, next, action),
{
    match state {
        State::Visible => match event {
            Event::Probed(Ok(true)) => Some(enter(args)),
            Event::Probed(Ok(false)) => Some(
                (
                    State::Restored,
                    Action::Fail(AppError::FileDoesNotExist(slice_to_vec(args.file.as_slice()))),
                ),
            ),
            Event::Probed(Err(cause)) => Some(
                (State::Restored, io_failure("existence check", cause)),
            ),
            _ => None,
        },
        State::Hiding { hidden } => match event {
            Event::Renamed(Ok(())) => Some(
                (State::Hidden { path: slice_to_vec(hidden.as_slice()) }, Action::Run),
            ),
            Event::Renamed(Err(cause)) => Some((State::Restored, io_failure("rename", cause))),
            _ => None,
        },
        State::Hidden { path } => match event {
            Event::CommandExited { success } => {
                let keep = match args.on_failure {
                    OnFailureMode::KeepHidden => !success,
                    OnFailureMode::UnHide => false,
                };
                if keep {
                    Some((State::Restored, Action::Exit(Exit::Failure)))
                } else {
                    let exit = if success {
                        Exit::Success
                    } else {
                        Exit::Failure
                    };
                    Some(restore(path.as_slice(), args.global_args.hide_char(), exit))
                }
            },
            _ => None,
        },
        State::Restoring { exit } => match event {
            Event::Renamed(Ok(())) => Some((State::Restored, Action::Exit(*exit))),
            Event::Renamed(Err(cause)) => Some((State::Restored, io_failure("rename", cause))),
            _ => None,
        },
        State::Restored => None,
    }
}

/// The command is run only once the file is hidden: either it was found
/// hidden, or the rename that hides it has succeeded.
pub proof fn run_follows_hiding(
    args: &WithHideArgs,
    state: State,
    event: Event,
    next: State,
    action: Action,
)
    requires
        follows(args, state, event, next, action),
        action is Run,
    ensures
        next is Hidden,
        (state is Visible && is_hidden(args.file@, args.global_args@.hide_char)) || (state is Hiding
            && event matches Event::Renamed(Ok(_))),
{
}

/// The file is shown again only once the command has ended: the rename back
/// is asked for on that event and on no other, and never after a command that
/// failed where the file is to stay hidden then.
pub proof fn restore_follows_command(
    args: &WithHideArgs,
    state: State,
    event: Event,
    next: State,
    action: Action,
)
    requires
        follows(args, state, event, next, action),
        next is Restoring,
    ensures
        state is Hidden,
        event matches Event::CommandExited { success } && (success || args.on_failure
            != OnFailureMode::KeepHidden),
        action is Rename,
{
}

} // verus!
