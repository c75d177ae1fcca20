use vstd::prelude::*;
use vstd::string::StringExecFns;

verus! {

/// What went wrong while serving one request. A failure never outlives the
/// request it belongs to.
#[derive(Clone, Copy, Debug, PartialEq, Eq, Structural)]
pub enum ErrorKind {
    /// A result names an identifier that has no pending entry.
    UnknownCommand,
    /// A forwarded command came without an identifier.
    MissingIdentifier,
    /// The result channel closed before it yielded a value.
    ChannelClosed,
    /// The host reported that the command failed.
    HostExecution,
}

/// The error of a request: its kind and a text for the log.
#[derive(Clone, Debug, PartialEq, Eq)]
pub struct Report {
    pub kind: ErrorKind,
    pub detail: String,
}

/// Status sent for an identifier that is not pending.
pub const STATUS_UNKNOWN_COMMAND: u16 = 404;

/// Status sent for every other failure.
pub const STATUS_INTERNAL_ERROR: u16 = 500;

pub open spec fn status_of(kind: ErrorKind) -> u16 {
    match kind {
        ErrorKind::UnknownCommand => STATUS_UNKNOWN_COMMAND,
        _ => STATUS_INTERNAL_ERROR,
    }
}

impl Report {
    /// The report of a result whose identifier is not pending.
    pub fn unknown_command() -> (r: Report)
        ensures
            r.kind == ErrorKind::UnknownCommand,
            r.detail@ == "Unknown ID"@,
    {
        Report { kind: ErrorKind::UnknownCommand, detail: String::from_str("Unknown ID") }
    }

    /// The report of a forwarded command without identifier.
    pub fn missing_identifier() -> (r: Report)
        ensures
            r.kind == ErrorKind::MissingIdentifier,
            r.detail@ == "Got proxy command with no id"@,
    {
        Report {
            kind: ErrorKind::MissingIdentifier,
            detail: String::from_str("Got proxy command with no id"),
        }
    }

    /// The report of a result channel that closed without a value.
    pub fn channel_closed() -> (r: Report)
        ensures
            r.kind == ErrorKind::ChannelClosed,
            r.detail@ == "Couldn't receive response"@,
    {
        Report {
            kind: ErrorKind::ChannelClosed,
            detail: String::from_str("Couldn't receive response"),
        }
    }

    /// The report of a command that the host failed to execute; `text` is
    /// what the host said.
    pub fn host_execution(text: String) -> (r: Report)
        ensures
            r.kind == ErrorKind::HostExecution,
            r.detail == text,
    {
        Report { kind: ErrorKind::HostExecution, detail: text }
    }

    /// The HTTP status of the response that carries this error: a client
    /// error for an unknown identifier, a server error otherwise.
    pub fn status_code(&self) -> (code: u16)
        ensures
            code == status_of(self.kind),
            400 <= code < 600,
            self.kind == ErrorKind::UnknownCommand <==> code < 500,
    {
        match self.kind {
            ErrorKind::UnknownCommand => STATUS_UNKNOWN_COMMAND,
            _ => STATUS_INTERNAL_ERROR,
        }
    }

    /// The body of that response. It is the same for every error: the detail
    /// goes to the log, not to the peer.
    pub fn body(&self) -> (text: String)
        ensures
            text@ == "Something went wrong"@,
    {
        String::from_str("Something went wrong")
    }

    /// The text for the log.
    pub fn message(&self) -> (text: String)
        ensures
            text@ == self.detail@,
    {
        self.detail.clone()
    }
}

} // verus!
