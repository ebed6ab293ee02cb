use tray_runner::error::Disposition;
use tray_runner::error::ErrorKind;

#[test]
fn spawn_failure_is_fatal() {
    assert_eq!(ErrorKind::Spawn.disposition(), Disposition::Fatal);
}

#[test]
fn process_failures_terminate() {
    assert_eq!(ErrorKind::ProcessQuery.disposition(), Disposition::Terminate);
    assert_eq!(ErrorKind::ProcessKill.disposition(), Disposition::Terminate);
}

#[test]
fn side_effect_failures_are_swallowed() {
    assert_eq!(ErrorKind::EventDecode.disposition(), Disposition::Swallow);
    assert_eq!(ErrorKind::LogDirectoryOpen.disposition(), Disposition::Swallow);
    assert_eq!(ErrorKind::Notification.disposition(), Disposition::Swallow);
}

#[test]
fn contexts_are_fixed() {
    assert_eq!(ErrorKind::Spawn.context(), "Failed to spawn command");
    assert_eq!(ErrorKind::ProcessQuery.context(), "Failed to query child process");
    assert_eq!(ErrorKind::ProcessKill.context(), "Failed to kill child process");
    assert_eq!(ErrorKind::EventDecode.context(), "Failed to decode tray event");
    assert_eq!(ErrorKind::LogDirectoryOpen.context(), "Failed to open logs dir");
    assert_eq!(ErrorKind::Notification.context(), "Failed to show notification");
}

#[test]
fn message_joins_context_and_reason() {
    assert_eq!(
        ErrorKind::ProcessKill.message("No such process (os error 3)"),
        "Error: Failed to kill child process: No such process (os error 3)"
    );
    assert_eq!(ErrorKind::Spawn.message(""), "Error: Failed to spawn command: ");
    assert_eq!(
        ErrorKind::LogDirectoryOpen.message("launcher missing"),
        "Error: Failed to open logs dir: launcher missing"
    );
}
