//! Why a reconciliation attempt ended early.

use vstd::prelude::*;
use vstd::string::*;
use crate::hub::GitHubError;
use crate::local::CheckoutError;
use crate::s3::StorageError;

verus! {

/// The classes of failure an attempt can meet.
#[derive(Clone, Copy, Debug, PartialEq, Eq, Structural)]
pub enum ErrorKind {
    /// The network or TLS layer failed on the way to the platform or the
    /// log storage.
    Transport,
    /// The credential was rejected, or could not be sent at all.
    Auth,
    /// An answer did not have the expected shape.
    Parse,
    /// Cloning, fetching or resetting the working copy failed.
    Checkout,
    /// A log could not be archived.
    Storage,
    /// The build command could not be started. A command that ran and
    /// exited with a non-zero code is no error: it is a failed build.
    BuildExec,
}

/// A failure: its class, and a line for the operator.
#[derive(Debug)]
pub struct Error {
    pub kind: ErrorKind,
    pub message: String,
}

/// A failure as plain values.
pub struct ErrorView {
    pub kind: ErrorKind,
    pub message: Seq<char>,
}

impl View for Error {
    type V = ErrorView;

    open spec fn view(&self) -> ErrorView {
        ErrorView { kind: self.kind, message: self.message@ }
    }
}

/// The class of a failure on the way to the hosting platform.
pub open spec fn github_kind(e: GitHubError) -> ErrorKind {
    match e {
        GitHubError::InvalidHeader { .. } => ErrorKind::Auth,
        GitHubError::Auth { .. } => ErrorKind::Auth,
        GitHubError::Transport { .. } => ErrorKind::Transport,
        GitHubError::Parse { .. } => ErrorKind::Parse,
    }
}

/// The line for a failure on the way to the hosting platform.
pub open spec fn github_message(e: GitHubError) -> Seq<char> {
    match e {
        GitHubError::InvalidHeader { name } => name@ + " header was not a valid"@,
        GitHubError::Auth { .. } => "HTTP error: the credential was rejected"@,
        GitHubError::Transport { message } => "HTTP error: "@ + message@,
        GitHubError::Parse { message } => "HTTP error: "@ + message@,
    }
}

/// The line for a failure of the log storage.
pub open spec fn storage_message(e: StorageError) -> Seq<char> {
    match e {
        StorageError::InvalidRegion { name } => "Not a valid AWS region: "@ + name@,
        StorageError::Upload { message } => message@,
    }
}

/// The line for a failure of the working copy.
pub open spec fn checkout_message(e: CheckoutError) -> Seq<char> {
    match e {
        CheckoutError::InvalidSha { sha } => "Not a commit hash: "@ + sha@,
        CheckoutError::Git { message } => message@,
    }
}

impl Error {
    pub fn new(kind: ErrorKind, message: String) -> (error: Self)
        ensures
            error@ == (ErrorView { kind, message: message@ }),
    {
        Error { kind, message }
    }

    /// The failure of an attempt that a failure on the way to the hosting
    /// platform amounts to.
    pub fn from_github(e: GitHubError) -> (error: Self)
        ensures
            error@ == (ErrorView { kind: github_kind(e), message: github_message(e) }),
    {
        match e {
            GitHubError::InvalidHeader { name } => {
                let mut message = name.to_owned();
                message.append(" header was not a valid");
                Error { kind: ErrorKind::Auth, message }
            },
            GitHubError::Auth { .. } => Error {
                kind: ErrorKind::Auth,
                message: "HTTP error: the credential was rejected".to_owned(),
            },
            GitHubError::Transport { message } => {
                let mut line = "HTTP error: ".to_owned();
                line.append(message.as_str());
                Error { kind: ErrorKind::Transport, message: line }
            },
            GitHubError::Parse { message } => {
                let mut line = "HTTP error: ".to_owned();
                line.append(message.as_str());
                Error { kind: ErrorKind::Parse, message: line }
            },
        }
    }

    /// The failure of an attempt that a failure of the log storage amounts
    /// to.
    pub fn from_storage(e: StorageError) -> (error: Self)
        ensures
            error@ == (ErrorView { kind: ErrorKind::Storage, message: storage_message(e) }),
    {
        match e {
            StorageError::InvalidRegion { name } => {
                let mut line = "Not a valid AWS region: ".to_owned();
                line.append(name.as_str());
                Error { kind: ErrorKind::Storage, message: line }
            },
            StorageError::Upload { message } => Error { kind: ErrorKind::Storage, message },
        }
    }

    /// The failure of an attempt that a failure of the working copy amounts
    /// to.
    pub fn from_checkout(e: CheckoutError) -> (error: Self)
        ensures
            error@ == (ErrorView { kind: ErrorKind::Checkout, message: checkout_message(e) }),
    {
        match e {
            CheckoutError::InvalidSha { sha } => {
                let mut line = "Not a commit hash: ".to_owned();
                line.append(sha.as_str());
                Error { kind: ErrorKind::Checkout, message: line }
            },
            CheckoutError::Git { message } => Error { kind: ErrorKind::Checkout, message },
        }
    }

    /// The failure of an attempt whose build command could not be started.
    pub fn build_exec(message: String) -> (error: Self)
        ensures
            error@ == (ErrorView { kind: ErrorKind::BuildExec, message: message@ }),
    {
        Error { kind: ErrorKind::BuildExec, message }
    }
}

} // verus!
