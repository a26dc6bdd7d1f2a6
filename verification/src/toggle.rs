//! The toggle tool as a state machine: a hidden file is shown, a visible one
//! hidden, and a file that is not there is looked for in its other state.
//!
//! The machine decides; its caller acts. `begin` and `step` hand out an
//! `Action`, the caller performs it and reports what came of it as an `Event`.

use vstd::prelude::*;
use vstd::slice::slice_to_vec;
use crate::args::Args;
use crate::err::{display_text, lossy_text, AppError};
use crate::renaming::{
    auto_transition_file, file_is_hidden, has_text_name, is_hidden, name_refused, toggled_path,
    Rename,
};
use crate::search::{answers, intended_file_from, intended_path};

verus! {

/// How a run ends where nothing went wrong.
#[derive(Debug, Clone, Copy, PartialEq, Eq, Structural)]
pub enum Ending {
    /// The file was renamed.
    Renamed,
    /// The user declined the file that was suggested.
    Cancelled,
    /// The file was in the state that was asked for: `hidden` tells which.
    Redundant { hidden: bool },
}

/// Where a run stands.
#[derive(Debug)]
pub enum State {
    /// Whether the file that was named exists was asked.
    Locating,
    /// The file that was named does not exist; whether `candidate`, the file in
    /// the other state, exists was asked.
    Searching { candidate: Vec<u8> },
    /// The user was asked whether `candidate` is meant.
    Confirming { candidate: Vec<u8> },
    /// The rename was asked for.
    Renaming,
    /// The run is over.
    Done,
}

/// What the caller reports.
#[derive(Debug)]
pub enum Event {
    /// Whether the path of the last `Probe` exists, or why that cannot be told.
    Probed(Result<bool, std::io::Error>),
    /// Whether the user accepted the suggestion of the last `Ask`.
    Answered(bool),
    /// What came of the last `Rename`.
    Renamed(Result<(), std::io::Error>),
}

/// What the caller is to do next.
#[derive(Debug)]
pub enum Action {
    /// Tell whether this path exists.
    Probe(Vec<u8>),
    /// Tell the user that `missing` does not exist, and ask whether
    /// `suggestion` is meant.
    Ask { missing: Vec<u8>, suggestion: Vec<u8> },
    /// Make this rename.
    Rename(Rename),
    /// End the run, with success.
    Finish(Ending),
    /// End the run with this error.
    Fail(AppError),
}

impl State {
    /// Whether `event` answers the action that this state waits on.
    pub open spec fn awaits(self, event: Event) -> bool {
        match self {
            State::Locating => event is Probed,
            State::Searching { .. } => event is Probed,
            State::Confirming { .. } => event is Answered,
            State::Renaming => event is Renamed,
            State::Done => false,
        }
    }
}

/// Whether `action` ends the run with an `IOError` for `cause`, met while
/// doing what `context` names.
pub open spec fn fails_on(action: Action, context: Seq<char>, cause: std::io::Error) -> bool {
    action matches Action::Fail(AppError::IOError { context: named, error }) && named@ == context
        && error == cause
}

/// Whether `action` ends the run with the error that a path without a text
/// name is refused with.
pub open spec fn refuses(action: Action, path: Seq<u8>) -> bool {
    action matches Action::Fail(e) && name_refused(path, Err::<(), AppError>(e))
}

/// Whether what was asked is met by a file that is hidden, or is not, as
/// `hidden` tells: it was to be hidden and is, or was to be shown and is.
pub open spec fn is_redundant(args: &Args, hidden: bool) -> bool {
    (hidden && args@.hide) || (!hidden && args@.unhide)
}

/// Whether the run starts with `state` and `action`: a command line that asks
/// both to hide and to show is refused, else the caller is asked whether the
/// file exists.
pub open spec fn starts(args: &Args, state: State, action: Action) -> bool {
    if args@.hide && args@.unhide {
        state is Done && (action matches Action::Fail(AppError::InvalidCommand(msg)) && msg@
            == "cannot specify 'hide' and 'unhide' at the same time"@)
    } else {
        state is Locating && (action matches Action::Probe(path) && path@ == args@.file)
    }
}

/// Whether the file at `path`, which exists, is dealt with by `next` and
/// `action`: the run ends where the path has no text name or the file is in
/// the state that was asked for, else the file is renamed to its other state.
pub open spec fn settles(args: &Args, path: Seq<u8>, next: State, action: Action) -> bool {
    let hide_char = args@.hide_char;
    if !has_text_name(path) {
        next is Done && refuses(action, path)
    } else if is_redundant(args, is_hidden(path, hide_char)) {
        next is Done && action == Action::Finish(
            Ending::Redundant { hidden: is_hidden(path, hide_char) },
        )
    } else {
        next is Renaming && (action matches Action::Rename(rename) && rename.from@ == path
            && rename.to@ == toggled_path(path, hide_char))
    }
}

/// Whether the file that was named and does not exist is dealt with by `next`
/// and `action`: the caller is asked whether the file in the other state
/// exists, and the run ends where the path has no text name.
pub open spec fn searches(args: &Args, next: State, action: Action) -> bool {
    let file = args@.file;
    let candidate = toggled_path(file, args@.hide_char);
    if !has_text_name(file) {
        next is Done && refuses(action, file)
    } else {
        (next matches State::Searching { candidate: kept } && kept@ == candidate) && (
        action matches Action::Probe(path) && path@ == candidate)
    }
}

/// Whether `next` and `action` are what follows `state` on `event`.
///
/// * `Locating`: a file that exists is dealt with as `settles` tells. One that
///   does not, or of which it cannot be told, is looked for in its other state
///   as `searches` tells.
/// * `Searching`: where the candidate exists the user is asked whether it is
///   meant. Where it does not, the run ends with `FileDoesNotExist` for the
///   file that was named, and where that cannot be told, with an `IOError`.
/// * `Confirming`: a candidate that the user accepts is dealt with as
///   `settles` tells; one that the user declines ends the run.
/// * `Renaming`: the run ends, with the error of a rename that failed.
pub open spec fn follows(args: &Args, state: State, event: Event, next: State, action: Action) -> bool {
    let file = args@.file;
    match (state, event) {
        (State::Locating, Event::Probed(found)) => if found == Ok::<bool, std::io::Error>(true) {
            settles(args, file, next, action)
        } else {
            searches(args, next, action)
        },
        (State::Searching { candidate }, Event::Probed(Ok(exists))) => if exists {
            (next matches State::Confirming { candidate: kept } && kept@ == candidate@) && (
            action matches Action::Ask { missing, suggestion } && missing@ == file
                && suggestion@ == candidate@)
        } else {
            next is Done && (action matches Action::Fail(AppError::FileDoesNotExist(path))
                && path@ == file)
        },
        (State::Searching { .. }, Event::Probed(Err(cause))) => next is Done && fails_on(
            action,
            "while trying to look up possibly intended file"@,
            cause,
        ),
        (State::Confirming { candidate }, Event::Answered(accepted)) => if accepted {
            settles(args, candidate@, next, action)
        } else {
            next is Done && action == Action::Finish(Ending::Cancelled)
        },
        (State::Renaming, Event::Renamed(Ok(_))) => next is Done && action == Action::Finish(
            Ending::Renamed,
        ),
        (State::Renaming, Event::Renamed(Err(cause))) => next is Done && fails_on(
            action,
            "rename"@,
            cause,
        ),
        _ => false,
    }
}

/// Starts a run, as `starts` tells.
pub fn begin(args: &Args) -> (r: (State, Action))
    ensures
        starts(args, r.0, r.1),
{
    if args.force_hide() && args.unhide() {
        (
            State::Done,
            Action::Fail(
                AppError::InvalidCommand(
                    String::from_str("cannot specify 'hide' and 'unhide' at the same time"),
                ),
            ),
        )
    } else {
        (State::Locating, Action::Probe(slice_to_vec(args.file().as_slice())))
    }
}

/// What a file that exists leads to.
fn settle(args: &Args, path: &[u8]) -> (r: (State, Action))
    ensures
        settles(args, path@, r.0, r.1),
{
    match file_is_hidden(path, args.hide_char()) {
        Ok(hidden) => {
            if (hidden && args.force_hide()) || (!hidden && args.unhide()) {
                (State::Done, Action::Finish(Ending::Redundant { hidden }))
            } else {
                match auto_transition_file(path, args.hide_char()) {
                    Ok(rename) => (State::Renaming, Action::Rename(rename)),
                    Err(e) => (State::Done, Action::Fail(e)),
                }
            }
        },
        Err(e) => (State::Done, Action::Fail(e)),
    }
}

/// What a file that does not exist leads to.
fn search(args: &Args) -> (r: (State, Action))
    ensures
        searches(args, r.0, r.1),
{
    match intended_path(args.file().as_slice(), args.hide_char()) {
        Ok(candidate) => (
            State::Searching { candidate: slice_to_vec(candidate.as_slice()) },
            Action::Probe(candidate),
        ),
        Err(e) => (State::Done, Action::Fail(e)),
    }
}

/// Takes the run one step on: from `state` and what the caller reports to the
/// next state and the next action, as `follows` tells. Nothing is handed out
/// for an event that `state` does not wait on, and none ever in `Done`.
pub fn step(args: &Args, state: &State, event: Event) -> (r: Option<(State, Action)>)
    ensures
        r is Some <==> state.awaits(event),
        r matches Some((next, action)) ==> follows(args, *state, event, next, action),
{
    match state {
        State::Locating => match event {
            Event::Probed(Ok(true)) => Some(settle(args, args.file().as_slice())),
            Event::Probed(_) => Some(search(args)),
            _ => None,
        },
        State::Searching { candidate } => match event {
            Event::Probed(found) => {
                match intended_file_from(slice_to_vec(candidate.as_slice()), found) {
                    Ok(Some(suggestion)) => Some(
                        (
                            State::Confirming { candidate: slice_to_vec(candidate.as_slice()) },
                            Action::Ask {
                                missing: slice_to_vec(args.file().as_slice()),
                                suggestion,
                            },
                        ),
                    ),
                    Ok(None) => Some(
                        (
                            State::Done,
                            Action::Fail(
                                AppError::FileDoesNotExist(slice_to_vec(args.file().as_slice())),
                            ),
                        ),
                    ),
                    Err(e) => Some((State::Done, Action::Fail(e))),
                }
            },
            _ => None,
        },
        State::Confirming { candidate } => match event {
            Event::Answered(true) => Some(settle(args, candidate.as_slice())),
            Event::Answered(false) => Some((State::Done, Action::Finish(Ending::Cancelled))),
            _ => None,
        },
        State::Renaming => match event {
            Event::Renamed(Ok(())) => Some((State::Done, Action::Finish(Ending::Renamed))),
            Event::Renamed(Err(cause)) => Some(
                (
                    State::Done,
                    Action::Fail(
                        AppError::IOError { context: String::from_str("rename"), error: cause },
                    ),
                ),
            ),
            _ => None,
        },
        State::Done => None,
    }
}

/// What the user is told before the question of an `Ask`.
pub open spec fn suggestion_text(missing: Seq<u8>, suggestion: Seq<u8>) -> Seq<char> {
    "the path '"@ + lossy_text(missing) + "' does not exist. Did you mean '"@ + lossy_text(
        suggestion,
    ) + "'?"@
}

/// What the user is told before the question of an `Ask`.
pub fn suggestion_message(missing: &[u8], suggestion: &[u8]) -> (text: String)
    ensures
        text@ == suggestion_text(missing@, suggestion@),
{
    let mut text = String::from_str("the path '");
    text.append(display_text(missing).as_str());
    text.append("' does not exist. Did you mean '");
    text.append(display_text(suggestion).as_str());
    text.append("'?");
    text
}

/// The question of an `Ask`; no answer stands for yes.
pub fn question() -> (text: &'static str)
    ensures
        text@ == "Should we use the other instead:"@,
{
    "Should we use the other instead:"
}

impl Ending {
    /// What the user is told at the end, if anything.
    pub open spec fn spec_message(self) -> Option<Seq<char>> {
        match self {
            Ending::Renamed => None,
            Ending::Cancelled => Some("Cancelling"@),
            Ending::Redundant { hidden } => Some(
                if hidden {
                    "Specified operation was redundant: file was already hidden"@
                } else {
                    "Specified operation was redundant: file was already unhidden"@
                },
            ),
        }
    }

    /// What the user is told at the end, if anything.
    pub fn message(&self) -> (text: Option<&'static str>)
        ensures
            text is Some <==> self.spec_message() is Some,
            text matches Some(t) ==> self.spec_message() == Some(t@),
    {
        match self {
            Ending::Renamed => None,
            Ending::Cancelled => Some("Cancelling"),
            Ending::Redundant { hidden: true } => Some(
                "Specified operation was redundant: file was already hidden",
            ),
            Ending::Redundant { hidden: false } => Some(
                "Specified operation was redundant: file was already unhidden",
            ),
        }
    }
}

} // verus!
