use hide_utils::args::Args;
use hide_utils::global_args::GlobalArgs;
use hide_utils::hider::args::{FileCommandArgs, HideArgs, HiderSubCommand, WithHiddenArgs};

#[test]
fn global_args_hand_out_what_they_were_given() {
    let args = GlobalArgs::new(true, '~');
    assert!(args.verbose());
    assert_eq!(args.hide_char(), '~');
    assert_eq!(GlobalArgs::DEFAULT_HIDE_CHAR, '.');
}

#[test]
fn args_hand_out_what_they_were_given() {
    let args = Args::new(true, '_', false, true, b"dir/file".to_vec());
    assert!(args.verbose());
    assert_eq!(args.hide_char(), '_');
    assert!(!args.unhide());
    assert!(args.force_hide());
    assert_eq!(args.file(), &b"dir/file".to_vec());
}

#[test]
fn hider_args_hand_out_what_they_were_given() {
    let hide = HideArgs::new(true, false, b"a/b".to_vec());
    assert!(hide.unhide());
    assert!(!hide.force_hide());
    assert_eq!(hide.file(), b"a/b");
    let with = WithHiddenArgs::new(b"c".to_vec(), vec![String::from("ls")]);
    assert_eq!(with.file(), b"c");
    assert_eq!(with.command(), &vec![String::from("ls")]);

    let args = hide_utils::hider::args::GlobalArgs::new(false, '.', Some(HiderSubCommand::Hide(hide)));
    assert!(!args.verbose());
    assert_eq!(args.hide_char(), '.');
    assert!(matches!(args.command(), Some(HiderSubCommand::Hide(given)) if given.file() == b"a/b"));
    let args = hide_utils::hider::args::GlobalArgs::new(true, '.', Some(HiderSubCommand::WithHide(with)));
    assert!(args.verbose());
    assert!(matches!(args.command(), Some(HiderSubCommand::WithHide(given)) if given.file() == b"c"));
    let args = hide_utils::hider::args::GlobalArgs::new(true, '.', None);
    assert!(args.command().is_none());
}
