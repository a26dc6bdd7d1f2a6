use hide_utils::err::{io_error_message, AppError};

#[test]
fn invalid_command_reads_with_its_reason() {
    let error = AppError::InvalidCommand(String::from("both at once"));
    assert_eq!(error.message(), "Invalid Command: both at once");
}

#[test]
fn no_file_name_message() {
    assert_eq!(
        AppError::NoFileName.message(),
        "Provided path has no file name, so nothing can be (un)hidden"
    );
}

#[test]
fn not_unicode_message() {
    assert_eq!(
        AppError::FileNameNotUnicode.message(),
        "File name is not in unicode, so cannot be processed"
    );
}

#[test]
fn missing_file_reads_with_its_path() {
    let error = AppError::FileDoesNotExist(b"dir/foo.txt".to_vec());
    assert_eq!(error.message(), "the provided file path 'dir/foo.txt' does not exist");
    let error = AppError::FileDoesNotExist("dätei".as_bytes().to_vec());
    assert_eq!(error.message(), "the provided file path 'dätei' does not exist");
}

#[test]
fn missing_file_reads_with_a_replacement_for_what_is_not_text() {
    let error = AppError::FileDoesNotExist(b"dir/\xffoo".to_vec());
    assert_eq!(error.message(), "the provided file path 'dir/\u{fffd}oo' does not exist");
}

#[test]
fn io_error_reads_with_context_and_cause() {
    let cause = std::io::Error::new(std::io::ErrorKind::Other, "the disk is gone");
    let error = AppError::IOError { context: String::from("rename"), error: cause };
    assert_eq!(error.message(), "I/O error encountered while rename: the disk is gone");
    assert_eq!(io_error_message("rename", "why"), "I/O error encountered while rename: why");
}
