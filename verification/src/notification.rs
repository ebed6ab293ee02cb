//! The desktop notifications that the tray runner shows.

use crate::spawn::command_line;
use crate::spawn::command_line_of;
use vstd::prelude::*;
use vstd::string::StringExecFns;

verus! {

/// A desktop notification: a title and a body.
#[derive(Debug, Clone, PartialEq, Eq)]
pub struct Notification {
    pub title: String,
    pub body: String,
}

/// The mathematical content of a [`Notification`].
pub struct NotificationView {
    pub title: Seq<char>,
    pub body: Seq<char>,
}

impl View for Notification {
    type V = NotificationView;

    open spec fn view(&self) -> NotificationView {
        NotificationView { title: self.title@, body: self.body@ }
    }
}

/// The notification for a command that was started: its body is the command
/// line.
pub open spec fn started_notification_of(words: Seq<Seq<char>>) -> NotificationView {
    NotificationView { title: "Process started!"@, body: command_line_of(words) }
}

/// The notification for a child process that has exited: its body names the
/// exit status.
pub open spec fn exited_notification_of(status: Seq<char>) -> NotificationView {
    NotificationView { title: "Process exited"@, body: "Exit code: "@ + status }
}

impl Notification {
    /// The notification shown once the command `cmd` has been started.
    pub fn started(cmd: &Vec<String>) -> (note: Notification)
        ensures
            note@ == started_notification_of(cmd.deep_view()),
    {
        Notification { title: "Process started!".to_owned(), body: command_line(cmd) }
    }

    /// The notification shown once the child process has exited with the
    /// given status, written as text.
    pub fn exited(status: &str) -> (note: Notification)
        ensures
            note@ == exited_notification_of(status@),
    {
        let mut body = "Exit code: ".to_owned();
        body.append(status);
        Notification { title: "Process exited".to_owned(), body }
    }
}

} // verus!
