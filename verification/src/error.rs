//! The failures a command reports to its caller.

use vstd::prelude::*;
use vstd::string::*;
use crate::net::NetworkError;
use crate::text::{decimal, decimal_string, join};

verus! {

/// What went wrong, by class.
#[derive(Debug, Clone, Copy, PartialEq, Eq, Structural)]
pub enum ErrorKind {
    /// The source token is neither `-`, a valid URL, nor an existing file.
    SourceNotFound,
    /// A local file could not be opened or read.
    FileReadError,
    /// Standard input was not a byte payload, or reading it failed.
    StdinReadError,
    /// A URL is malformed.
    NetworkValidationError,
    /// The daemon reported a failure during a transfer.
    TransferError,
    /// A plain request to the daemon failed.
    DaemonCallError,
    /// A field name is not one of an entity's fields.
    UnknownField,
    /// A structured record could not be encoded.
    SerializationError,
    /// The configured time limit cut a daemon call short.
    TimeoutError,
}

/// A labelled, human-readable failure.
#[derive(Debug)]
pub struct CommandError {
    pub kind: ErrorKind,
    pub message: String,
}

/// The mathematical content of a [`CommandError`].
pub struct CommandErrorView {
    pub kind: ErrorKind,
    pub message: Seq<char>,
}

impl View for CommandError {
    type V = CommandErrorView;

    open spec fn view(&self) -> CommandErrorView {
        CommandErrorView { kind: self.kind, message: self.message@ }
    }
}

/// The plain daemon requests a command makes.
#[derive(Debug, Clone, Copy, PartialEq, Eq, Structural)]
pub enum DaemonCall {
    /// Listing the images for the `images` command.
    ListImages,
    /// Listing the images again after an import.
    ListImported,
    /// Inspecting one image.
    InspectImage,
    /// Reading one image's history.
    ImageHistory,
}

/// The label that precedes the cause of a failed daemon request.
pub open spec fn daemon_call_label(call: DaemonCall) -> Seq<char> {
    match call {
        DaemonCall::ListImages => "Failed to list Docker images: "@,
        DaemonCall::ListImported => "Failed to list containers: "@,
        DaemonCall::InspectImage => "Failed to inspect Docker image: "@,
        DaemonCall::ImageHistory => "Failed to get image history: "@,
    }
}

/// The message of a timeout after `seconds` seconds.
pub open spec fn timeout_message(seconds: nat) -> Seq<char> {
    "Timeout: Operation time exceeded "@ + decimal(seconds) + " seconds"@
}

impl CommandError {
    /// The human-readable message.
    pub fn message(&self) -> (text: String)
        ensures
            text@ == self@.message,
    {
        self.message.clone()
    }

    /// A rejected URL as a command's failure.
    pub fn malformed_url(error: NetworkError) -> (e: CommandError)
        ensures
            e@ == (CommandErrorView {
                kind: ErrorKind::NetworkValidationError,
                message: error.message@,
            }),
    {
        CommandError { kind: ErrorKind::NetworkValidationError, message: error.message }
    }

    /// The failure of a plain daemon request, with the daemon's `cause`.
    pub fn daemon_call(call: DaemonCall, cause: &str) -> (e: CommandError)
        ensures
            e@ == (CommandErrorView {
                kind: ErrorKind::DaemonCallError,
                message: daemon_call_label(call) + cause@,
            }),
    {
        let label = match call {
            DaemonCall::ListImages => "Failed to list Docker images: ",
            DaemonCall::ListImported => "Failed to list containers: ",
            DaemonCall::InspectImage => "Failed to inspect Docker image: ",
            DaemonCall::ImageHistory => "Failed to get image history: ",
        };
        CommandError { kind: ErrorKind::DaemonCallError, message: join(label, cause) }
    }

    /// The failure to open or read a local file, with the system's `cause`.
    pub fn file_read(cause: &str) -> (e: CommandError)
        ensures
            e@ == (CommandErrorView {
                kind: ErrorKind::FileReadError,
                message: "Failed to read file stream: "@ + cause@,
            }),
    {
        CommandError {
            kind: ErrorKind::FileReadError,
            message: join("Failed to read file stream: ", cause),
        }
    }

    /// The failure to read standard input to its end, with the `cause`.
    pub fn stdin_read(cause: &str) -> (e: CommandError)
        ensures
            e@ == (CommandErrorView {
                kind: ErrorKind::StdinReadError,
                message: "Failed to read stdin: "@ + cause@,
            }),
    {
        CommandError {
            kind: ErrorKind::StdinReadError,
            message: join("Failed to read stdin: ", cause),
        }
    }

    /// Standard input that is not a byte payload.
    pub fn stdin_not_binary() -> (e: CommandError)
        ensures
            e@ == (CommandErrorView {
                kind: ErrorKind::StdinReadError,
                message: "Expected binary input from stdin"@,
            }),
    {
        CommandError {
            kind: ErrorKind::StdinReadError,
            message: "Expected binary input from stdin".to_owned(),
        }
    }

    /// A structured record that could not be encoded, with the `cause`.
    pub fn serialization(cause: &str) -> (e: CommandError)
        ensures
            e@ == (CommandErrorView {
                kind: ErrorKind::SerializationError,
                message: "Failed to serialize: "@ + cause@,
            }),
    {
        CommandError {
            kind: ErrorKind::SerializationError,
            message: join("Failed to serialize: ", cause),
        }
    }

    /// The failure of a daemon call that the configured limit of `seconds`
    /// seconds cut short.
    pub fn timeout(seconds: u64) -> (e: CommandError)
        ensures
            e@ == (CommandErrorView {
                kind: ErrorKind::TimeoutError,
                message: timeout_message(seconds as nat),
            }),
    {
        let mut message = join("Timeout: Operation time exceeded ", decimal_string(seconds).as_str());
        message.append(" seconds");
        CommandError { kind: ErrorKind::TimeoutError, message }
    }
}

} // verus!
