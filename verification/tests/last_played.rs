use cat_launcher::last_played::{
    LastPlayedError, LastPlayedFileError, LastPlayedVersionRepositoryError,
};

#[test]
fn repository_error_messages_name_the_operation() {
    let get = LastPlayedVersionRepositoryError::Get(String::from("locked"));
    assert_eq!(get.message(), "failed to get last played version: locked");
    let record = LastPlayedVersionRepositoryError::Record(String::from("disk full"));
    assert_eq!(record.message(), "failed to set last played version: disk full");
}

#[test]
fn last_played_error_wraps_repository_message() {
    let err = LastPlayedError::Repository(LastPlayedVersionRepositoryError::Get(String::from(
        "no table",
    )));
    assert_eq!(
        err.message(),
        "failed to access last played version: failed to get last played version: no table"
    );
}

#[test]
fn file_error_message() {
    let err = LastPlayedFileError::CreateDir(String::from("permission denied"));
    assert_eq!(err.message(), "failed to create directory: permission denied");
}
