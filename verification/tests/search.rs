use hide_utils::err::AppError;
use hide_utils::search::{find_intended_file, intended_file_from, intended_path};

#[test]
fn intended_path_is_the_other_state() {
    assert_eq!(intended_path(b"foo.txt", '.').expect("a name"), b".foo.txt".to_vec());
    assert_eq!(intended_path(b".foo.txt", '.').expect("a name"), b"foo.txt".to_vec());
    assert_eq!(intended_path(b"dir/~foo", '~').expect("a name"), b"dir/foo".to_vec());
    assert!(matches!(intended_path(b"/", '.'), Err(AppError::NoFileName)));
    assert!(matches!(intended_path(b"..", '.'), Err(AppError::NoFileName)));
    assert!(matches!(intended_path(b"dir/..", '.'), Err(AppError::NoFileName)));
    assert_eq!(intended_path(b"dir/foo/.", '.').expect("a name"), b"dir/.foo".to_vec());
    assert!(matches!(intended_path(b"\xff", '.'), Err(AppError::FileNameNotUnicode)));
}

#[test]
fn missing_file_suggests_its_hidden_form() {
    let found = find_intended_file(b"foo.txt", '.', Ok(true)).expect("the look-up went well");
    assert_eq!(found, Some(b".foo.txt".to_vec()));
}

#[test]
fn missing_hidden_file_suggests_its_visible_form() {
    let found = find_intended_file(b".foo.txt", '.', Ok(true)).expect("the look-up went well");
    assert_eq!(found, Some(b"foo.txt".to_vec()));
}

#[test]
fn nothing_is_suggested_where_nothing_is_found() {
    let found = find_intended_file(b"foo.txt", '.', Ok(false)).expect("the look-up went well");
    assert_eq!(found, None);
}

#[test]
fn failed_look_up_is_an_io_error() {
    let cause = std::io::Error::new(std::io::ErrorKind::PermissionDenied, "no");
    match find_intended_file(b"foo.txt", '.', Err(cause)) {
        Err(AppError::IOError { context, error }) => {
            assert_eq!(context, "while trying to look up possibly intended file");
            assert_eq!(error.kind(), std::io::ErrorKind::PermissionDenied);
        }
        other => panic!("an I/O error was due, not {:?}", other),
    }
}

#[test]
fn path_without_a_name_is_refused_whatever_was_found() {
    assert!(matches!(find_intended_file(b"/", '.', Ok(true)), Err(AppError::NoFileName)));
    assert!(matches!(find_intended_file(b"", '.', Ok(false)), Err(AppError::NoFileName)));
    let cause = std::io::Error::new(std::io::ErrorKind::Other, "no");
    assert!(matches!(find_intended_file(b"/", '.', Err(cause)), Err(AppError::NoFileName)));
    assert!(matches!(
        find_intended_file(b"a/\xff", '.', Ok(true)),
        Err(AppError::FileNameNotUnicode)
    ));
}

#[test]
fn intended_file_from_keeps_the_candidate() {
    assert_eq!(
        intended_file_from(b"x".to_vec(), Ok(true)).expect("the look-up went well"),
        Some(b"x".to_vec())
    );
    assert_eq!(intended_file_from(b"x".to_vec(), Ok(false)).expect("the look-up went well"), None);
}
