use hide_utils::args::Args;
use hide_utils::err::AppError;
use hide_utils::toggle::{
    begin, question, step, suggestion_message, Action, Ending, Event, State,
};

fn args_for(file: &str, unhide: bool, force_hide: bool) -> Args {
    Args::new(false, '.', unhide, force_hide, file.as_bytes().to_vec())
}

fn denied() -> std::io::Error {
    std::io::Error::new(std::io::ErrorKind::PermissionDenied, "no")
}

#[test]
fn missing_file_suggests_the_hidden_one_that_exists() {
    let args = args_for("foo.txt", false, false);
    let (state, action) = begin(&args);
    assert!(matches!(action, Action::Probe(ref path) if path == b"foo.txt"));
    assert!(matches!(state, State::Locating));
    let (state, action) = step(&args, &state, Event::Probed(Ok(false))).expect("a probe was due");
    assert!(matches!(action, Action::Probe(ref path) if path == b".foo.txt"));
    assert!(matches!(state, State::Searching { ref candidate } if candidate == b".foo.txt"));
    let (state, action) = step(&args, &state, Event::Probed(Ok(true))).expect("a probe was due");
    match action {
        Action::Ask { missing, suggestion } => {
            assert_eq!(missing, b"foo.txt".to_vec());
            assert_eq!(suggestion, b".foo.txt".to_vec());
            assert_eq!(
                suggestion_message(&missing, &suggestion),
                "the path 'foo.txt' does not exist. Did you mean '.foo.txt'?"
            );
        }
        other => panic!("the user was to be asked, not {:?}", other),
    }
    assert!(matches!(state, State::Confirming { ref candidate } if candidate == b".foo.txt"));
    let (state, action) = step(&args, &state, Event::Answered(true)).expect("an answer was due");
    assert!(matches!(action, Action::Rename(ref rename)
        if rename.from == b".foo.txt" && rename.to == b"foo.txt"));
    assert!(matches!(state, State::Renaming));
    let (state, action) = step(&args, &state, Event::Renamed(Ok(()))).expect("a rename was due");
    assert!(matches!(action, Action::Finish(Ending::Renamed)));
    assert!(matches!(state, State::Done));
}

#[test]
fn declined_suggestion_cancels() {
    let args = args_for("foo.txt", false, false);
    let state = State::Confirming { candidate: b".foo.txt".to_vec() };
    let (state, action) = step(&args, &state, Event::Answered(false)).expect("an answer was due");
    assert!(matches!(action, Action::Finish(Ending::Cancelled)));
    assert!(matches!(state, State::Done));
    assert_eq!(Ending::Cancelled.message(), Some("Cancelling"));
}

#[test]
fn contradictory_flags_are_refused() {
    let args = args_for("foo.txt", true, true);
    let (state, action) = begin(&args);
    match action {
        Action::Fail(AppError::InvalidCommand(msg)) => {
            assert_eq!(msg, "cannot specify 'hide' and 'unhide' at the same time");
        }
        other => panic!("the command line was to be refused, not {:?}", other),
    }
    assert!(matches!(state, State::Done));
}

#[test]
fn file_that_exists_is_toggled() {
    let args = args_for("dir/foo.txt", false, false);
    let (state, _) = begin(&args);
    let (state, action) = step(&args, &state, Event::Probed(Ok(true))).expect("a probe was due");
    assert!(matches!(action, Action::Rename(ref rename)
        if rename.from == b"dir/foo.txt" && rename.to == b"dir/.foo.txt"));
    assert!(matches!(state, State::Renaming));

    let args = args_for("dir/.foo.txt", false, false);
    let (state, _) = begin(&args);
    let (_, action) = step(&args, &state, Event::Probed(Ok(true))).expect("a probe was due");
    assert!(matches!(action, Action::Rename(ref rename)
        if rename.from == b"dir/.foo.txt" && rename.to == b"dir/foo.txt"));
}

#[test]
fn forced_state_that_holds_already_is_redundant() {
    let args = args_for(".foo.txt", false, true);
    let (state, _) = begin(&args);
    let (state, action) = step(&args, &state, Event::Probed(Ok(true))).expect("a probe was due");
    assert!(matches!(action, Action::Finish(Ending::Redundant { hidden: true })));
    assert!(matches!(state, State::Done));

    let args = args_for("foo.txt", true, false);
    let (state, _) = begin(&args);
    let (_, action) = step(&args, &state, Event::Probed(Ok(true))).expect("a probe was due");
    assert!(matches!(action, Action::Finish(Ending::Redundant { hidden: false })));

    assert_eq!(
        Ending::Redundant { hidden: true }.message(),
        Some("Specified operation was redundant: file was already hidden")
    );
    assert_eq!(
        Ending::Redundant { hidden: false }.message(),
        Some("Specified operation was redundant: file was already unhidden")
    );
    assert_eq!(Ending::Renamed.message(), None);
}

#[test]
fn forced_state_that_does_not_hold_is_reached() {
    let args = args_for("foo.txt", false, true);
    let (state, _) = begin(&args);
    let (_, action) = step(&args, &state, Event::Probed(Ok(true))).expect("a probe was due");
    assert!(matches!(action, Action::Rename(ref rename) if rename.to == b".foo.txt"));

    let args = args_for(".foo.txt", true, false);
    let (state, _) = begin(&args);
    let (_, action) = step(&args, &state, Event::Probed(Ok(true))).expect("a probe was due");
    assert!(matches!(action, Action::Rename(ref rename) if rename.to == b"foo.txt"));
}

#[test]
fn file_that_is_nowhere_does_not_exist() {
    let args = args_for("foo.txt", false, false);
    let (state, _) = begin(&args);
    let (state, _) = step(&args, &state, Event::Probed(Ok(false))).expect("a probe was due");
    let (state, action) = step(&args, &state, Event::Probed(Ok(false))).expect("a probe was due");
    assert!(matches!(action, Action::Fail(AppError::FileDoesNotExist(ref path))
        if path == b"foo.txt"));
    assert!(matches!(state, State::Done));
}

#[test]
fn failed_search_is_an_io_error() {
    let args = args_for("foo.txt", false, false);
    let (state, _) = begin(&args);
    let (state, action) =
        step(&args, &state, Event::Probed(Err(denied()))).expect("a probe was due");
    assert!(matches!(action, Action::Probe(ref path) if path == b".foo.txt"));
    let (state, action) =
        step(&args, &state, Event::Probed(Err(denied()))).expect("a probe was due");
    match action {
        Action::Fail(AppError::IOError { context, error }) => {
            assert_eq!(context, "while trying to look up possibly intended file");
            assert_eq!(error.kind(), std::io::ErrorKind::PermissionDenied);
        }
        other => panic!("an I/O error was due, not {:?}", other),
    }
    assert!(matches!(state, State::Done));
}

#[test]
fn failed_rename_is_an_io_error() {
    let args = args_for("foo.txt", false, false);
    let (state, action) =
        step(&args, &State::Renaming, Event::Renamed(Err(denied()))).expect("a rename was due");
    assert!(matches!(action, Action::Fail(AppError::IOError { ref context, .. })
        if context == "rename"));
    assert!(matches!(state, State::Done));
}

#[test]
fn path_without_a_name_is_refused() {
    let args = args_for("/", false, false);
    let (state, _) = begin(&args);
    let (state, action) = step(&args, &state, Event::Probed(Ok(true))).expect("a probe was due");
    assert!(matches!(action, Action::Fail(AppError::NoFileName)));
    assert!(matches!(state, State::Done));
    let (state, _) = begin(&args);
    let (_, action) = step(&args, &state, Event::Probed(Ok(false))).expect("a probe was due");
    assert!(matches!(action, Action::Fail(AppError::NoFileName)));
}

#[test]
fn directory_above_is_refused() {
    let args = args_for("dir/..", false, false);
    let (state, _) = begin(&args);
    let (state, action) = step(&args, &state, Event::Probed(Ok(true))).expect("a probe was due");
    assert!(matches!(action, Action::Fail(AppError::NoFileName)));
    assert!(matches!(state, State::Done));
}

#[test]
fn event_out_of_turn_is_turned_down() {
    let args = args_for("foo.txt", false, false);
    assert!(step(&args, &State::Locating, Event::Answered(true)).is_none());
    assert!(step(&args, &State::Locating, Event::Renamed(Ok(()))).is_none());
    let searching = State::Searching { candidate: b".foo.txt".to_vec() };
    assert!(step(&args, &searching, Event::Answered(true)).is_none());
    let confirming = State::Confirming { candidate: b".foo.txt".to_vec() };
    assert!(step(&args, &confirming, Event::Probed(Ok(true))).is_none());
    assert!(step(&args, &State::Renaming, Event::Probed(Ok(true))).is_none());
    assert!(step(&args, &State::Done, Event::Renamed(Ok(()))).is_none());
}

#[test]
fn question_asks_for_the_other_file() {
    assert_eq!(question(), "Should we use the other instead:");
}
