use ndocker::error::{CommandError, DaemonCall, ErrorKind};
use ndocker::file::{check_file_exists, FileErrorType};
use ndocker::net::{check_url, NetworkErrorType};
use ndocker::source::{resolve_source, ImportSource};

#[test]
fn check_url_accepts_http_and_https() {
    assert!(check_url("http://example.com").is_ok());
    assert!(check_url("https://example.com/rootfs.tar.gz").is_ok());
    assert!(check_url("http://").is_ok());
}

#[test]
fn check_url_rejects_the_empty_string() {
    let e = check_url("").unwrap_err();
    assert_eq!(e.error_type, NetworkErrorType::UrlError);
    assert_eq!(e.message, "URL cannot be empty");
    assert_eq!(e.message(), "URL cannot be empty");
}

#[test]
fn check_url_rejects_other_schemes() {
    for url in ["ftp://example.com", "example.com", "http:/x", "HTTP://x", "busybox.tar", "-"] {
        let e = check_url(url).unwrap_err();
        assert_eq!(e.error_type, NetworkErrorType::UrlError);
        assert_eq!(e.message, format!("Invalid URL format: {}", url));
    }
}

#[test]
fn check_file_exists_follows_the_file_system() {
    assert!(check_file_exists("busybox.tar", true).is_ok());
    let e = check_file_exists("busybox.tar", false).unwrap_err();
    assert_eq!(e.error_type, FileErrorType::FileError);
    assert_eq!(e.message, "File not found: busybox.tar");
    assert_eq!(e.message(), "File not found: busybox.tar");
}

#[test]
fn dash_is_stdin_whatever_the_file_system_holds() {
    assert!(matches!(resolve_source("-", false), Ok(ImportSource::Stdin)));
    assert!(matches!(resolve_source("-", true), Ok(ImportSource::Stdin)));
}

#[test]
fn a_url_resolves_to_itself() {
    match resolve_source("https://example.com/rootfs.tar.gz", false) {
        Ok(ImportSource::Url(url)) => assert_eq!(url, "https://example.com/rootfs.tar.gz"),
        other => panic!("unexpected {:?}", other),
    }
}

#[test]
fn a_url_wins_over_a_file_of_the_same_name() {
    match resolve_source("http://example.com/a.tar", true) {
        Ok(ImportSource::Url(url)) => assert_eq!(url, "http://example.com/a.tar"),
        other => panic!("unexpected {:?}", other),
    }
}

#[test]
fn an_existing_file_resolves_to_the_file() {
    match resolve_source("busybox.tar", true) {
        Ok(ImportSource::File(path)) => assert_eq!(path, "busybox.tar"),
        other => panic!("unexpected {:?}", other),
    }
}

#[test]
fn anything_else_is_not_found() {
    for token in ["busybox.tar", "", "ftp://example.com/a.tar", "--"] {
        let e = resolve_source(token, false).unwrap_err();
        assert_eq!(e.kind, ErrorKind::SourceNotFound);
        assert_eq!(e.message, format!("File or URL does not exist: {}", token));
    }
}

#[test]
fn an_empty_token_that_exists_is_a_file() {
    assert!(matches!(resolve_source("", true), Ok(ImportSource::File(_))));
}

#[test]
fn daemon_call_errors_are_labelled() {
    let cases = [
        (DaemonCall::ListImages, "Failed to list Docker images: boom"),
        (DaemonCall::ListImported, "Failed to list containers: boom"),
        (DaemonCall::InspectImage, "Failed to inspect Docker image: boom"),
        (DaemonCall::ImageHistory, "Failed to get image history: boom"),
    ];
    for (call, message) in cases {
        let e = CommandError::daemon_call(call, "boom");
        assert_eq!(e.kind, ErrorKind::DaemonCallError);
        assert_eq!(e.message, message);
        assert_eq!(e.message(), message);
    }
}

#[test]
fn read_errors_are_labelled() {
    let e = CommandError::file_read("No such file or directory (os error 2)");
    assert_eq!(e.kind, ErrorKind::FileReadError);
    assert_eq!(e.message, "Failed to read file stream: No such file or directory (os error 2)");
    let e = CommandError::stdin_read("broken pipe");
    assert_eq!(e.kind, ErrorKind::StdinReadError);
    assert_eq!(e.message, "Failed to read stdin: broken pipe");
    let e = CommandError::stdin_not_binary();
    assert_eq!(e.kind, ErrorKind::StdinReadError);
    assert_eq!(e.message, "Expected binary input from stdin");
    let e = CommandError::serialization("key must be a string");
    assert_eq!(e.kind, ErrorKind::SerializationError);
    assert_eq!(e.message, "Failed to serialize: key must be a string");
}

#[test]
fn timeout_names_the_seconds() {
    let e = CommandError::timeout(30);
    assert_eq!(e.kind, ErrorKind::TimeoutError);
    assert_eq!(e.message, "Timeout: Operation time exceeded 30 seconds");
    assert_eq!(CommandError::timeout(0).message, "Timeout: Operation time exceeded 0 seconds");
    assert_eq!(
        CommandError::timeout(u64::MAX).message,
        "Timeout: Operation time exceeded 18446744073709551615 seconds"
    );
}

#[test]
fn a_rejected_url_is_a_validation_error() {
    let e = CommandError::malformed_url(check_url("ftp://example.com").unwrap_err());
    assert_eq!(e.kind, ErrorKind::NetworkValidationError);
    assert_eq!(e.message, "Invalid URL format: ftp://example.com");
    let e = CommandError::malformed_url(check_url("").unwrap_err());
    assert_eq!(e.message, "URL cannot be empty");
}
