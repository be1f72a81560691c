use crane::error::{Error, ErrorKind};
use crane::hub::GitHubError;
use crane::local::CheckoutError;
use crane::s3::StorageError;

#[test]
fn platform_failures_keep_their_class() {
    let e = Error::from_github(GitHubError::InvalidHeader { name: "authorization" });
    assert_eq!(e.kind, ErrorKind::Auth);
    assert_eq!(e.message, "authorization header was not a valid");

    let e = Error::from_github(GitHubError::Auth { status: 401 });
    assert_eq!(e.kind, ErrorKind::Auth);
    assert_eq!(e.message, "HTTP error: the credential was rejected");

    let e = Error::from_github(GitHubError::Transport { message: "connection refused".to_string() });
    assert_eq!(e.kind, ErrorKind::Transport);
    assert_eq!(e.message, "HTTP error: connection refused");

    let e = Error::from_github(GitHubError::Parse { message: "missing field `sha`".to_string() });
    assert_eq!(e.kind, ErrorKind::Parse);
    assert_eq!(e.message, "HTTP error: missing field `sha`");
}

#[test]
fn storage_failures_are_storage_errors() {
    let e = Error::from_storage(StorageError::InvalidRegion { name: "mars-1".to_string() });
    assert_eq!(e.kind, ErrorKind::Storage);
    assert_eq!(e.message, "Not a valid AWS region: mars-1");

    let e = Error::from_storage(StorageError::Upload { message: "quota exceeded".to_string() });
    assert_eq!(e.kind, ErrorKind::Storage);
    assert_eq!(e.message, "quota exceeded");
}

#[test]
fn checkout_failures_are_checkout_errors() {
    let e = Error::from_checkout(CheckoutError::InvalidSha { sha: "xyz".to_string() });
    assert_eq!(e.kind, ErrorKind::Checkout);
    assert_eq!(e.message, "Not a commit hash: xyz");

    let e = Error::from_checkout(CheckoutError::Git { message: "object not found".to_string() });
    assert_eq!(e.kind, ErrorKind::Checkout);
    assert_eq!(e.message, "object not found");
}

#[test]
fn a_command_that_cannot_start_is_a_build_exec_error() {
    let e = Error::build_exec("bash: not found".to_string());
    assert_eq!(e.kind, ErrorKind::BuildExec);
    assert_eq!(e.message, "bash: not found");
    let e = Error::new(ErrorKind::Parse, "x".to_string());
    assert_eq!(e.kind, ErrorKind::Parse);
    assert_eq!(e.message, "x");
}
