use cargo_aur::error::Error;

#[test]
fn message_of_io_error() {
    assert_eq!(Error::Io("No such file or directory".to_string()).message(), "No such file or directory");
}

#[test]
fn message_of_manifest_error() {
    assert_eq!(Error::Manifest("missing field `name`".to_string()).message(), "missing field `name`");
}

#[test]
fn message_of_missing_license() {
    assert_eq!(
        Error::MissingLicense.message(),
        "Missing LICENSE file. See https://choosealicense.com/"
    );
}

#[test]
fn duplicate_is_equal() {
    for error in [Error::Io("a".to_string()), Error::Manifest("b".to_string()), Error::MissingLicense] {
        assert_eq!(error.duplicate(), error);
    }
}
