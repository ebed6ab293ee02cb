//! The failures that the tray runner knows, and what each one leads to.

use vstd::prelude::*;
use vstd::string::StringExecFns;

verus! {

/// What failed.
#[derive(Debug, Clone, Copy, PartialEq, Eq, Structural)]
pub enum ErrorKind {
    /// The wrapped command could not be started, or its log file not opened.
    Spawn,
    /// The state of the child process could not be queried.
    ProcessQuery,
    /// The child process could not be killed.
    ProcessKill,
    /// A menu event carried an identifier that names no command.
    EventDecode,
    /// The directory of the logs could not be opened in the file browser.
    LogDirectoryOpen,
    /// A desktop notification could not be shown.
    Notification,
}

/// What a failure leads to.
#[derive(Debug, Clone, Copy, PartialEq, Eq, Structural)]
pub enum Disposition {
    /// The program cannot go on: it reports the failure and exits non-zero.
    Fatal,
    /// The failure is logged and the supervision loop stops, releasing what
    /// it holds.
    Terminate,
    /// The failure is logged and the supervision loop goes on.
    Swallow,
}

/// The disposition of each kind of failure. A failure that puts the cleanup
/// of the tray icon and of the child process at risk stops the loop; one
/// that only concerns a side effect is swallowed.
pub open spec fn disposition_of(kind: ErrorKind) -> Disposition {
    match kind {
        ErrorKind::Spawn => Disposition::Fatal,
        ErrorKind::ProcessQuery => Disposition::Terminate,
        ErrorKind::ProcessKill => Disposition::Terminate,
        ErrorKind::EventDecode => Disposition::Swallow,
        ErrorKind::LogDirectoryOpen => Disposition::Swallow,
        ErrorKind::Notification => Disposition::Swallow,
    }
}

/// The words that say what was attempted when a failure of this kind
/// occurred.
pub open spec fn context_of(kind: ErrorKind) -> Seq<char> {
    match kind {
        ErrorKind::Spawn => "Failed to spawn command"@,
        ErrorKind::ProcessQuery => "Failed to query child process"@,
        ErrorKind::ProcessKill => "Failed to kill child process"@,
        ErrorKind::EventDecode => "Failed to decode tray event"@,
        ErrorKind::LogDirectoryOpen => "Failed to open logs dir"@,
        ErrorKind::Notification => "Failed to show notification"@,
    }
}

/// The log line for a failure: `Error: `, the context, a colon and a space,
/// and the reason.
pub open spec fn error_message(kind: ErrorKind, reason: Seq<char>) -> Seq<char> {
    "Error: "@ + context_of(kind) + ": "@ + reason
}

impl ErrorKind {
    /// What this kind of failure leads to.
    pub fn disposition(self) -> (d: Disposition)
        ensures
            d == disposition_of(self),
    {
        match self {
            ErrorKind::Spawn => Disposition::Fatal,
            ErrorKind::ProcessQuery | ErrorKind::ProcessKill => Disposition::Terminate,
            ErrorKind::EventDecode | ErrorKind::LogDirectoryOpen | ErrorKind::Notification => {
                Disposition::Swallow
            },
        }
    }

    /// The words that say what was attempted.
    pub fn context(self) -> (text: &'static str)
        ensures
            text@ == context_of(self),
    {
        match self {
            ErrorKind::Spawn => "Failed to spawn command",
            ErrorKind::ProcessQuery => "Failed to query child process",
            ErrorKind::ProcessKill => "Failed to kill child process",
            ErrorKind::EventDecode => "Failed to decode tray event",
            ErrorKind::LogDirectoryOpen => "Failed to open logs dir",
            ErrorKind::Notification => "Failed to show notification",
        }
    }

    /// The log line for a failure of this kind with the given reason.
    pub fn message(self, reason: &str) -> (line: String)
        ensures
            line@ == error_message(self, reason@),
    {
        let mut line = "Error: ".to_owned();
        line.append(self.context());
        line.append(": ");
        line.append(reason);
        line
    }
}

} // verus!
