use tray_runner::error::ErrorKind;
use tray_runner::notification::Notification;
use tray_runner::spawn::SpawnPlan;
use tray_runner::supervisor::LogLevel;
use tray_runner::supervisor::LoopControl;
use tray_runner::supervisor::LoopState;
use tray_runner::supervisor::Outcome;
use tray_runner::supervisor::ProcessStatus;
use tray_runner::supervisor::SideEffect;
use tray_runner::supervisor::Supervisor;

fn exited(success: bool, status: &str) -> ProcessStatus {
    ProcessStatus::Exited { success, status: status.to_string() }
}

fn log(level: LogLevel, message: &str) -> SideEffect {
    SideEffect::Log { level, message: message.to_string() }
}

fn notify(title: &str, body: &str) -> SideEffect {
    SideEffect::Notify(Notification { title: title.to_string(), body: body.to_string() })
}

fn tick(sup: &mut Supervisor, status: ProcessStatus, event: Option<&str>) -> Outcome {
    sup.tick(|| status, || event.map(|id| id.to_string()))
}

fn count(effects: &[SideEffect], wanted: fn(&SideEffect) -> bool) -> usize {
    effects.iter().filter(|effect| wanted(effect)).count()
}

fn is_release(effect: &SideEffect) -> bool {
    matches!(effect, SideEffect::ReleaseTray)
}

fn is_kill(effect: &SideEffect) -> bool {
    matches!(effect, SideEffect::KillProcess)
}

fn is_notify(effect: &SideEffect) -> bool {
    matches!(effect, SideEffect::Notify(_))
}

fn is_open(effect: &SideEffect) -> bool {
    matches!(effect, SideEffect::OpenLogsDir)
}

#[test]
fn new_supervisor_is_active() {
    let sup = Supervisor::new();
    assert_eq!(sup.state(), LoopState::Active);
    assert!(!sup.is_terminated());
}

#[test]
fn quiet_tick_continues() {
    let mut sup = Supervisor::new();
    let out = tick(&mut sup, ProcessStatus::Running, None);
    assert_eq!(out.control, LoopControl::Continue);
    assert!(out.effects.is_empty());
    assert_eq!(sup.state(), LoopState::Active);
}

#[test]
fn successful_exit_terminates_with_one_notification_and_one_release() {
    let mut sup = Supervisor::new();
    let out = tick(&mut sup, exited(true, "exit status: 0"), None);
    assert_eq!(out.control, LoopControl::Terminate);
    assert_eq!(sup.state(), LoopState::Terminated);
    assert_eq!(
        out.effects,
        vec![
            log(LogLevel::Info, "Command exited successfully: exit status: 0"),
            notify("Process exited", "Exit code: exit status: 0"),
            SideEffect::ReleaseTray,
        ]
    );
    assert_eq!(count(&out.effects, is_notify), 1);
    assert_eq!(count(&out.effects, is_release), 1);
    assert_eq!(count(&out.effects, is_kill), 0);
}

#[test]
fn failed_exit_terminates_and_records_the_failure() {
    let mut sup = Supervisor::new();
    let out = tick(&mut sup, exited(false, "exit status: 3"), None);
    assert_eq!(out.control, LoopControl::Terminate);
    assert_eq!(sup.state(), LoopState::Terminated);
    assert_eq!(
        out.effects,
        vec![
            log(LogLevel::Error, "Command exited with status: exit status: 3"),
            notify("Process exited", "Exit code: exit status: 3"),
            SideEffect::ReleaseTray,
        ]
    );
}

#[test]
fn exit_takes_priority_over_a_pending_event() {
    for event in [Some("Kill"), Some("Show Logs"), Some("bogus"), None] {
        let mut sup = Supervisor::new();
        let out = tick(&mut sup, exited(true, "exit status: 0"), event);
        assert_eq!(count(&out.effects, is_kill), 0);
        assert_eq!(count(&out.effects, is_open), 0);
        assert_eq!(count(&out.effects, is_notify), 1);
        assert_eq!(out.control, LoopControl::Terminate);
    }
}

#[test]
fn event_source_is_not_asked_once_the_child_has_exited() {
    let mut sup = Supervisor::new();
    let mut asked = false;
    let out = sup.tick(
        || ProcessStatus::Exited { success: true, status: "exit status: 0".to_string() },
        || {
            asked = true;
            Some("Kill".to_string())
        },
    );
    assert_eq!(out.control, LoopControl::Terminate);
    assert!(!asked);
}

#[test]
fn failed_query_terminates_and_releases() {
    let mut sup = Supervisor::new();
    let out = tick(
        &mut sup,
        ProcessStatus::Unknown { reason: "Invalid argument (os error 22)".to_string() },
        Some("Show Logs"),
    );
    assert_eq!(out.control, LoopControl::Terminate);
    assert_eq!(sup.state(), LoopState::Terminated);
    assert_eq!(
        out.effects,
        vec![
            log(
                LogLevel::Error,
                "Error: Failed to query child process: Invalid argument (os error 22)"
            ),
            SideEffect::ReleaseTray,
        ]
    );
}

#[test]
fn kill_event_issues_one_kill_and_terminates() {
    let mut sup = Supervisor::new();
    let out = tick(&mut sup, ProcessStatus::Running, Some("Kill"));
    assert_eq!(out.control, LoopControl::Terminate);
    assert_eq!(sup.state(), LoopState::Terminated);
    assert_eq!(out.effects, vec![SideEffect::KillProcess, SideEffect::ReleaseTray]);
}

#[test]
fn failed_kill_is_logged_and_the_loop_stays_terminated() {
    let mut sup = Supervisor::new();
    let out = tick(&mut sup, ProcessStatus::Running, Some("Kill"));
    assert_eq!(count(&out.effects, is_kill), 1);
    assert_eq!(count(&out.effects, is_release), 1);
    let report = sup.report_failure(ErrorKind::ProcessKill, "Operation not permitted (os error 1)");
    assert_eq!(report.control, LoopControl::Terminate);
    assert_eq!(sup.state(), LoopState::Terminated);
    assert_eq!(
        report.effects,
        vec![log(
            LogLevel::Error,
            "Error: Failed to kill child process: Operation not permitted (os error 1)"
        )]
    );
}

#[test]
fn show_logs_event_opens_the_directory_and_continues() {
    let mut sup = Supervisor::new();
    let out = tick(&mut sup, ProcessStatus::Running, Some("Show Logs"));
    assert_eq!(out.control, LoopControl::Continue);
    assert_eq!(sup.state(), LoopState::Active);
    assert_eq!(out.effects, vec![SideEffect::OpenLogsDir]);
}

#[test]
fn failed_open_is_logged_and_the_loop_continues() {
    let mut sup = Supervisor::new();
    tick(&mut sup, ProcessStatus::Running, Some("Show Logs"));
    let report = sup.report_failure(ErrorKind::LogDirectoryOpen, "no launcher");
    assert_eq!(report.control, LoopControl::Continue);
    assert_eq!(sup.state(), LoopState::Active);
    assert_eq!(
        report.effects,
        vec![log(LogLevel::Error, "Error: Failed to open logs dir: no launcher")]
    );
}

#[test]
fn failed_notification_never_stops_the_loop() {
    let mut sup = Supervisor::new();
    let report = sup.report_failure(ErrorKind::Notification, "no notification server");
    assert_eq!(report.control, LoopControl::Continue);
    assert_eq!(sup.state(), LoopState::Active);
    assert_eq!(
        report.effects,
        vec![log(LogLevel::Error, "Error: Failed to show notification: no notification server")]
    );
}

#[test]
fn spawn_failure_stops_the_loop_and_releases() {
    let mut sup = Supervisor::new();
    let report = sup.report_failure(ErrorKind::Spawn, "No such file or directory (os error 2)");
    assert_eq!(report.control, LoopControl::Terminate);
    assert_eq!(sup.state(), LoopState::Terminated);
    assert_eq!(
        report.effects,
        vec![
            log(
                LogLevel::Error,
                "Error: Failed to spawn command: No such file or directory (os error 2)"
            ),
            SideEffect::ReleaseTray,
        ]
    );
}

#[test]
fn unknown_event_is_logged_and_dropped() {
    for id in ["", "kill", "Quit", "Show Logs "] {
        let mut sup = Supervisor::new();
        let out = tick(&mut sup, ProcessStatus::Running, Some(id));
        assert_eq!(out.control, LoopControl::Continue);
        assert_eq!(sup.state(), LoopState::Active);
        assert_eq!(
            out.effects,
            vec![log(
                LogLevel::Error,
                "Error: Failed to decode tray event: Matching variant not found"
            )]
        );
    }
}

#[test]
fn terminated_tick_is_a_no_op() {
    let mut sup = Supervisor::new();
    tick(&mut sup, exited(true, "exit status: 0"), None);
    let inputs = [
        (ProcessStatus::Running, None),
        (ProcessStatus::Running, Some("Kill")),
        (ProcessStatus::Running, Some("Show Logs")),
        (exited(true, "exit status: 0"), None),
        (exited(false, "exit status: 1"), Some("Kill")),
        (ProcessStatus::Unknown { reason: "gone".to_string() }, None),
    ];
    for (status, event) in inputs {
        let out = tick(&mut sup, status, event);
        assert_eq!(out.control, LoopControl::Terminate);
        assert!(out.effects.is_empty());
        assert_eq!(sup.state(), LoopState::Terminated);
    }
}

#[test]
fn terminated_supervisor_asks_neither_source() {
    let mut sup = Supervisor::new();
    tick(&mut sup, ProcessStatus::Running, Some("Kill"));
    let mut polled = false;
    let mut received = false;
    let out = sup.tick(
        || {
            polled = true;
            ProcessStatus::Running
        },
        || {
            received = true;
            Some("Kill".to_string())
        },
    );
    assert!(out.effects.is_empty());
    assert_eq!(out.control, LoopControl::Terminate);
    assert!(!polled);
    assert!(!received);
}

#[test]
fn one_event_is_consumed_per_tick() {
    let mut queue = vec!["Show Logs".to_string(), "Show Logs".to_string(), "Kill".to_string()];
    queue.reverse();
    let mut sup = Supervisor::new();
    let out = sup.tick(|| ProcessStatus::Running, || queue.pop());
    assert_eq!(out.effects, vec![SideEffect::OpenLogsDir]);
    assert_eq!(queue.len(), 2);
    let out = sup.tick(|| ProcessStatus::Running, || queue.pop());
    assert_eq!(out.effects, vec![SideEffect::OpenLogsDir]);
    assert_eq!(queue.len(), 1);
    let out = sup.tick(|| ProcessStatus::Running, || queue.pop());
    assert_eq!(out.effects, vec![SideEffect::KillProcess, SideEffect::ReleaseTray]);
    assert_eq!(queue.len(), 0);
}

#[test]
fn stale_events_are_left_alone_after_termination() {
    let mut queue = vec!["Kill".to_string(), "Kill".to_string(), "Show Logs".to_string()];
    queue.reverse();
    let mut sup = Supervisor::new();
    let first = sup.tick(|| ProcessStatus::Running, || queue.pop());
    assert_eq!(count(&first.effects, is_kill), 1);
    for _ in 0..5 {
        let out = sup.tick(|| ProcessStatus::Running, || queue.pop());
        assert!(out.effects.is_empty());
        assert_eq!(out.control, LoopControl::Terminate);
    }
    assert_eq!(queue.len(), 2);
}

#[test]
fn exit_check_alone_matches_the_tick() {
    let mut sup = Supervisor::new();
    let out = sup.exit_check(&ProcessStatus::Running);
    assert_eq!(out.control, LoopControl::Continue);
    assert!(out.effects.is_empty());
    let out = sup.exit_check(&exited(false, "exit status: 101"));
    assert_eq!(out.control, LoopControl::Terminate);
    assert_eq!(
        out.effects,
        vec![
            log(LogLevel::Error, "Command exited with status: exit status: 101"),
            notify("Process exited", "Exit code: exit status: 101"),
            SideEffect::ReleaseTray,
        ]
    );
    let out = sup.exit_check(&exited(false, "exit status: 101"));
    assert_eq!(out.control, LoopControl::Terminate);
    assert!(out.effects.is_empty());
}

#[test]
fn menu_check_alone_matches_the_tick() {
    let mut sup = Supervisor::new();
    let out = sup.menu_check(None);
    assert_eq!(out.control, LoopControl::Continue);
    assert!(out.effects.is_empty());
    let out = sup.menu_check(Some("Show Logs"));
    assert_eq!(out.effects, vec![SideEffect::OpenLogsDir]);
    let out = sup.menu_check(Some("Kill"));
    assert_eq!(out.effects, vec![SideEffect::KillProcess, SideEffect::ReleaseTray]);
    assert!(sup.is_terminated());
    let out = sup.menu_check(Some("Kill"));
    assert_eq!(out.control, LoopControl::Terminate);
    assert!(out.effects.is_empty());
}

#[test]
fn whole_run_releases_the_tray_exactly_once() {
    let mut sup = Supervisor::new();
    let mut all: Vec<SideEffect> = Vec::new();
    let inputs = [
        (ProcessStatus::Running, None),
        (ProcessStatus::Running, Some("Show Logs")),
        (ProcessStatus::Running, Some("what")),
        (ProcessStatus::Running, None),
        (ProcessStatus::Running, Some("Kill")),
        (exited(false, "signal: 9 (SIGKILL)"), Some("Kill")),
        (ProcessStatus::Running, Some("Kill")),
        (exited(true, "exit status: 0"), None),
    ];
    for (status, event) in inputs {
        all.extend(tick(&mut sup, status, event).effects);
    }
    assert!(sup.is_terminated());
    assert_eq!(count(&all, is_release), 1);
    assert_eq!(count(&all, is_kill), 1);
    assert_eq!(count(&all, is_notify), 0);
    assert_eq!(count(&all, is_open), 1);
}

#[test]
fn sleep_one_runs_exits_and_is_reported_once() {
    let cmd = vec!["sleep".to_string(), "1".to_string()];
    let plan = SpawnPlan::new(&cmd, "2024-03-09_17-05-59");
    assert_eq!(plan.program, "sleep");
    assert_eq!(plan.args, vec!["1".to_string()]);
    let started = Notification::started(&cmd);
    assert_eq!(started.body, "sleep 1");

    let mut sup = Supervisor::new();
    let mut all: Vec<SideEffect> = Vec::new();
    for _ in 0..10 {
        let out = tick(&mut sup, ProcessStatus::Running, None);
        assert_eq!(out.control, LoopControl::Continue);
        all.extend(out.effects);
    }
    assert!(all.is_empty());
    let out = tick(&mut sup, exited(true, "exit status: 0"), None);
    assert_eq!(out.control, LoopControl::Terminate);
    all.extend(out.effects);
    for _ in 0..3 {
        let out = tick(&mut sup, exited(true, "exit status: 0"), None);
        assert_eq!(out.control, LoopControl::Terminate);
        all.extend(out.effects);
    }
    assert_eq!(
        all,
        vec![
            log(LogLevel::Info, "Command exited successfully: exit status: 0"),
            notify("Process exited", "Exit code: exit status: 0"),
            SideEffect::ReleaseTray,
        ]
    );
}

#[test]
fn control_goes_by_the_state() {
    let mut sup = Supervisor::new();
    assert_eq!(sup.control(), LoopControl::Continue);
    let out = tick(&mut sup, ProcessStatus::Running, Some("Show Logs"));
    assert_eq!(sup.control(), out.control);
    let out = tick(&mut sup, ProcessStatus::Running, Some("Kill"));
    assert_eq!(sup.control(), out.control);
    assert_eq!(sup.control(), LoopControl::Terminate);
}
