//! What holds of every tick of the supervision loop, and of every run of
//! ticks, whatever the child process and the tray menu do.

use crate::error::disposition_of;
use crate::error::ErrorKind;
use crate::message::decoded;
use crate::message::label_of;
use crate::message::label_round_trip;
use crate::message::variant_not_found_text;
use crate::message::TrayMessage;
use crate::notification::exited_notification_of;
use crate::supervisor::control_of;
use crate::supervisor::exit_log_of;
use crate::supervisor::exit_step;
use crate::supervisor::failure_log_of;
use crate::supervisor::failure_step;
use crate::supervisor::idle_step;
use crate::supervisor::menu_step;
use crate::supervisor::stop_step;
use crate::supervisor::tick_step;
use crate::supervisor::LogLevel;
use crate::supervisor::LoopState;
use crate::supervisor::OutcomeView;
use crate::supervisor::ProcessStatusView;
use crate::supervisor::SideEffectView;
use crate::supervisor::Transition;
use vstd::prelude::*;

verus! {

/// The sort of a side effect, without what it carries.
pub enum EffectKind {
    Log,
    Notify,
    KillProcess,
    OpenLogsDir,
    ReleaseTray,
}

/// The sort of a side effect.
pub open spec fn kind_of(effect: SideEffectView) -> EffectKind {
    match effect {
        SideEffectView::Log { .. } => EffectKind::Log,
        SideEffectView::Notify(_) => EffectKind::Notify,
        SideEffectView::KillProcess => EffectKind::KillProcess,
        SideEffectView::OpenLogsDir => EffectKind::OpenLogsDir,
        SideEffectView::ReleaseTray => EffectKind::ReleaseTray,
    }
}

/// How many side effects of the given sort a sequence holds.
pub open spec fn count(effects: Seq<SideEffectView>, kind: EffectKind) -> nat
    decreases effects.len(),
{
    if effects.len() == 0 {
        0
    } else {
        let rest = count(effects.drop_last(), kind);
        if kind_of(effects.last()) == kind {
            rest + 1
        } else {
            rest
        }
    }
}

/// What the host hands to the supervisor: the answers of the two sources
/// in one tick, or the report of a failure that it has met.
pub enum Input {
    /// A tick: what the query of the child process finds, and the
    /// identifier of the pending tray-menu event, if one is pending.
    Tick { status: ProcessStatusView, event: Option<Seq<char>> },
    /// A failure of the given kind, for the given reason.
    Failure { kind: ErrorKind, reason: Seq<char> },
}

/// What the supervisor does with one input.
pub open spec fn step(state: LoopState, input: Input) -> Transition {
    match input {
        Input::Tick { status, event } => tick_step(state, status, event),
        Input::Failure { kind, reason } => failure_step(state, kind, reason),
    }
}

/// A run from `state`, one step for each input: the state after the last
/// step, the control of the last step, and the side effects of all steps in
/// the order in which they were asked for.
pub open spec fn run(state: LoopState, inputs: Seq<Input>) -> Transition
    decreases inputs.len(),
{
    if inputs.len() == 0 {
        idle_step(state)
    } else {
        let before = run(state, inputs.drop_last());
        let last = step(before.state, inputs.last());
        Transition {
            state: last.state,
            outcome: OutcomeView {
                control: last.outcome.control,
                effects: before.outcome.effects + last.outcome.effects,
            },
        }
    }
}

/// The empty sequence holds no side effect.
pub proof fn count_of_none(kind: EffectKind)
    ensures
        count(Seq::empty(), kind) == 0,
{
}

/// Counting goes through `push`: the count of a sequence with one more side
/// effect at its end is the count of the sequence, plus one if the new side
/// effect is of the sort that is counted.
pub proof fn count_of_push(effects: Seq<SideEffectView>, effect: SideEffectView, kind: EffectKind)
    ensures
        count(effects.push(effect), kind) == count(effects, kind) + (if kind_of(effect) == kind {
            1nat
        } else {
            0nat
        }),
{
    assert(effects.push(effect).drop_last() =~= effects);
}

/// Counting goes through concatenation.
pub proof fn count_of_concat(
    first: Seq<SideEffectView>,
    second: Seq<SideEffectView>,
    kind: EffectKind,
)
    ensures
        count(first + second, kind) == count(first, kind) + count(second, kind),
    decreases second.len(),
{
    if second.len() == 0 {
        assert(first + second =~= first);
    } else {
        count_of_concat(first, second.drop_last(), kind);
        assert((first + second).drop_last() =~= first + second.drop_last());
    }
}

/// The counts in a sequence of one, two or three side effects.
proof fn count_of_few(a: SideEffectView, b: SideEffectView, c: SideEffectView, kind: EffectKind)
    ensures
        count(seq![a], kind) == (if kind_of(a) == kind {
            1nat
        } else {
            0nat
        }),
        count(seq![a, b], kind) == count(seq![a], kind) + (if kind_of(b) == kind {
            1nat
        } else {
            0nat
        }),
        count(seq![a, b, c], kind) == count(seq![a, b], kind) + (if kind_of(c) == kind {
            1nat
        } else {
            0nat
        }),
{
    assert(seq![a] =~= Seq::<SideEffectView>::empty().push(a));
    assert(seq![a, b] =~= seq![a].push(b));
    assert(seq![a, b, c] =~= seq![a, b].push(c));
    count_of_push(Seq::empty(), a, kind);
    count_of_push(seq![a], b, kind);
    count_of_push(seq![a, b], c, kind);
}

/// Every step tells the host to stop exactly if it leaves the loop
/// terminated.
pub proof fn control_follows_state(
    state: LoopState,
    status: ProcessStatusView,
    event: Option<Seq<char>>,
    kind: ErrorKind,
    reason: Seq<char>,
)
    ensures
        exit_step(state, status).outcome.control == control_of(exit_step(state, status).state),
        menu_step(state, event).outcome.control == control_of(menu_step(state, event).state),
        tick_step(state, status, event).outcome.control == control_of(
            tick_step(state, status, event).state,
        ),
        failure_step(state, kind, reason).outcome.control == control_of(
            failure_step(state, kind, reason).state,
        ),
{
}

/// Once the loop is terminated, a tick is a no-op: the state stays, the host
/// is told to stop, and no side effect is asked for, so no notification, no
/// kill and no release of the tray icon. The same holds of each of the two
/// checks alone. A failure reported then is logged and nothing else.
pub proof fn terminated_is_final(
    status: ProcessStatusView,
    event: Option<Seq<char>>,
    kind: ErrorKind,
    reason: Seq<char>,
)
    ensures
        tick_step(LoopState::Terminated, status, event) == idle_step(LoopState::Terminated),
        exit_step(LoopState::Terminated, status) == idle_step(LoopState::Terminated),
        menu_step(LoopState::Terminated, event) == idle_step(LoopState::Terminated),
        idle_step(LoopState::Terminated).state is Terminated,
        idle_step(LoopState::Terminated).outcome.control is Terminate,
        idle_step(LoopState::Terminated).outcome.effects.len() == 0,
        failure_step(LoopState::Terminated, kind, reason).state is Terminated,
        failure_step(LoopState::Terminated, kind, reason).outcome.effects == seq![
            failure_log_of(kind, reason),
        ],
{
    let idle = idle_step(LoopState::Terminated);
    assert(idle.outcome.effects + idle.outcome.effects =~= idle.outcome.effects);
}

/// The exit check comes first: if the child process is not running any
/// more, the tick is the exit check alone, and a pending tray-menu event has
/// no part in it.
pub proof fn exit_check_comes_first(
    state: LoopState,
    status: ProcessStatusView,
    event: Option<Seq<char>>,
)
    requires
        !(status is Running),
    ensures
        tick_step(state, status, event) == exit_step(state, status),
{
    terminated_is_final(status, event, ErrorKind::ProcessQuery, Seq::empty());
}

/// While the child process runs, the tick is the menu check alone.
pub proof fn running_tick_is_the_menu_check(state: LoopState, event: Option<Seq<char>>)
    ensures
        tick_step(state, ProcessStatusView::Running, event) == menu_step(state, event),
{
    let first = exit_step(state, ProcessStatusView::Running);
    let second = menu_step(state, event);
    assert(first.outcome.effects + second.outcome.effects =~= second.outcome.effects);
}

/// When the child process has exited, one tick takes the loop from active to
/// terminated and asks for three side effects: a log line that records the
/// exit, as an information if the child ended well and as an error if not,
/// and that ends in the status; one notification whose body ends in the
/// status; and the release of the tray icon. So the tick asks for exactly
/// one notification and exactly one release, and for no kill.
pub proof fn exit_ends_the_loop(success: bool, status: Seq<char>, event: Option<Seq<char>>)
    ensures
        ({
            let tick = tick_step(
                LoopState::Active,
                ProcessStatusView::Exited { success, status },
                event,
            );
            &&& tick.state is Terminated
            &&& tick.outcome.control is Terminate
            &&& tick.outcome.effects == seq![
                exit_log_of(success, status),
                SideEffectView::Notify(exited_notification_of(status)),
                SideEffectView::ReleaseTray,
            ]
            &&& exit_log_of(success, status) matches SideEffectView::Log { level, message }
            &&& level == (if success {
                LogLevel::Info
            } else {
                LogLevel::Error
            })
            &&& message.len() >= status.len()
            &&& message.subrange(message.len() - status.len(), message.len() as int) == status
            &&& exited_notification_of(status).body == "Exit code: "@ + status
            &&& count(tick.outcome.effects, EffectKind::Notify) == 1
            &&& count(tick.outcome.effects, EffectKind::ReleaseTray) == 1
            &&& count(tick.outcome.effects, EffectKind::KillProcess) == 0
        }),
{
    let message = exit_log_of(success, status)->message;
    assert(message.subrange(message.len() - status.len(), message.len() as int) =~= status);
    let a = exit_log_of(success, status);
    let b = SideEffectView::Notify(exited_notification_of(status));
    let c = SideEffectView::ReleaseTray;
    count_of_few(a, b, c, EffectKind::Notify);
    count_of_few(a, b, c, EffectKind::ReleaseTray);
    count_of_few(a, b, c, EffectKind::KillProcess);
}

/// When the query of the child process fails, one tick logs the failure,
/// releases the tray icon and terminates the loop.
pub proof fn failed_query_ends_the_loop(reason: Seq<char>, event: Option<Seq<char>>)
    ensures
        tick_step(LoopState::Active, ProcessStatusView::Unknown { reason }, event) == stop_step(
            seq![failure_log_of(ErrorKind::ProcessQuery, reason), SideEffectView::ReleaseTray],
        ),
{
}

/// A `Kill` event while the child process runs: the tick asks for exactly
/// one kill and exactly one release of the tray icon, and terminates the
/// loop without waiting for the kill. If the host then reports that the kill
/// failed, the loop stays terminated and the report asks for a log line and
/// nothing else: no second kill, no second release.
pub proof fn kill_ends_the_loop(reason: Seq<char>)
    ensures
        ({
            let tick = tick_step(
                LoopState::Active,
                ProcessStatusView::Running,
                Some(label_of(TrayMessage::Kill)),
            );
            let report = failure_step(tick.state, ErrorKind::ProcessKill, reason);
            &&& tick == stop_step(seq![SideEffectView::KillProcess, SideEffectView::ReleaseTray])
            &&& count(tick.outcome.effects, EffectKind::KillProcess) == 1
            &&& count(tick.outcome.effects, EffectKind::ReleaseTray) == 1
            &&& report.state is Terminated
            &&& report.outcome.control is Terminate
            &&& report.outcome.effects == seq![failure_log_of(ErrorKind::ProcessKill, reason)]
        }),
{
    label_round_trip(TrayMessage::Kill);
    running_tick_is_the_menu_check(LoopState::Active, Some(label_of(TrayMessage::Kill)));
    let a = SideEffectView::KillProcess;
    let b = SideEffectView::ReleaseTray;
    count_of_few(a, b, b, EffectKind::KillProcess);
    count_of_few(a, b, b, EffectKind::ReleaseTray);
}

/// A `ShowLogs` event while the child process runs: the loop stays active,
/// the host is told to poll again, and the tick asks for exactly one side
/// effect, the opening of the directory of the logs. If the host then
/// reports that the opening failed, the loop still stays active.
pub proof fn show_logs_keeps_the_loop(reason: Seq<char>)
    ensures
        ({
            let tick = tick_step(
                LoopState::Active,
                ProcessStatusView::Running,
                Some(label_of(TrayMessage::ShowLogs)),
            );
            let report = failure_step(tick.state, ErrorKind::LogDirectoryOpen, reason);
            &&& tick.state is Active
            &&& tick.outcome.control is Continue
            &&& tick.outcome.effects == seq![SideEffectView::OpenLogsDir]
            &&& count(tick.outcome.effects, EffectKind::OpenLogsDir) == 1
            &&& report.state is Active
            &&& report.outcome.control is Continue
            &&& report.outcome.effects == seq![failure_log_of(ErrorKind::LogDirectoryOpen, reason)]
        }),
{
    label_round_trip(TrayMessage::ShowLogs);
    running_tick_is_the_menu_check(LoopState::Active, Some(label_of(TrayMessage::ShowLogs)));
    let a = SideEffectView::OpenLogsDir;
    count_of_few(a, a, a, EffectKind::OpenLogsDir);
}

/// While the child process runs and no event is pending, a tick changes
/// nothing and asks for nothing, whatever the state of the loop: an active
/// loop is told to poll again.
pub proof fn quiet_tick_is_idle(state: LoopState)
    ensures
        tick_step(state, ProcessStatusView::Running, None) == idle_step(state),
        state is Active ==> idle_step(state).outcome.control is Continue,
{
    running_tick_is_the_menu_check(state, None);
}

/// An event whose identifier names no command is logged and dropped: the
/// loop stays active and nothing is killed, opened or released.
pub proof fn unknown_event_is_dropped(id: Seq<char>)
    requires
        decoded(id) is None,
    ensures
        ({
            let tick = tick_step(LoopState::Active, ProcessStatusView::Running, Some(id));
            &&& tick.state is Active
            &&& tick.outcome.control is Continue
            &&& tick.outcome.effects == seq![
                failure_log_of(ErrorKind::EventDecode, variant_not_found_text()),
            ]
        }),
{
    running_tick_is_the_menu_check(LoopState::Active, Some(id));
}

/// A failure that is swallowed never changes the state of the loop, and a
/// failure of any kind asks for nothing but a log line and, where it stops
/// an active loop, the release of the tray icon.
pub proof fn failures_are_contained(state: LoopState, kind: ErrorKind, reason: Seq<char>)
    ensures
        disposition_of(kind) is Swallow ==> failure_step(state, kind, reason).state == state,
        count(failure_step(state, kind, reason).outcome.effects, EffectKind::KillProcess) == 0,
        count(failure_step(state, kind, reason).outcome.effects, EffectKind::Notify) == 0,
        count(failure_step(state, kind, reason).outcome.effects, EffectKind::OpenLogsDir) == 0,
        count(failure_step(state, kind, reason).outcome.effects, EffectKind::ReleaseTray) == (if state
            != failure_step(state, kind, reason).state {
            1nat
        } else {
            0nat
        }),
{
    let a = failure_log_of(kind, reason);
    let b = SideEffectView::ReleaseTray;
    count_of_few(a, b, b, EffectKind::KillProcess);
    count_of_few(a, b, b, EffectKind::Notify);
    count_of_few(a, b, b, EffectKind::OpenLogsDir);
    count_of_few(a, b, b, EffectKind::ReleaseTray);
}

/// What one tick can ask for. The tray icon is released exactly when the
/// tick terminates an active loop. A kill or a notification comes only with
/// that release, and never both in one tick.
pub proof fn tick_effects_are_bounded(
    state: LoopState,
    status: ProcessStatusView,
    event: Option<Seq<char>>,
)
    ensures
        ({
            let tick = tick_step(state, status, event);
            let released = count(tick.outcome.effects, EffectKind::ReleaseTray);
            let killed = count(tick.outcome.effects, EffectKind::KillProcess);
            let notified = count(tick.outcome.effects, EffectKind::Notify);
            &&& state is Terminated ==> tick.state is Terminated
            &&& released == (if state is Active && tick.state is Terminated {
                1nat
            } else {
                0nat
            })
            &&& killed + notified <= released
        }),
{
    let tick = tick_step(state, status, event);
    match state {
        LoopState::Terminated => {
            terminated_is_final(status, event, ErrorKind::ProcessQuery, Seq::empty());
            count_of_none(EffectKind::ReleaseTray);
            count_of_none(EffectKind::KillProcess);
            count_of_none(EffectKind::Notify);
        },
        LoopState::Active => {
            match status {
                ProcessStatusView::Running => {
                    running_tick_is_the_menu_check(state, event);
                    match event {
                        None => {
                            count_of_none(EffectKind::ReleaseTray);
                            count_of_none(EffectKind::KillProcess);
                            count_of_none(EffectKind::Notify);
                        },
                        Some(id) => {
                            match decoded(id) {
                                Some(TrayMessage::Kill) => {
                                    let a = SideEffectView::KillProcess;
                                    let b = SideEffectView::ReleaseTray;
                                    count_of_few(a, b, b, EffectKind::ReleaseTray);
                                    count_of_few(a, b, b, EffectKind::KillProcess);
                                    count_of_few(a, b, b, EffectKind::Notify);
                                },
                                Some(TrayMessage::ShowLogs) => {
                                    let a = SideEffectView::OpenLogsDir;
                                    count_of_few(a, a, a, EffectKind::ReleaseTray);
                                    count_of_few(a, a, a, EffectKind::KillProcess);
                                    count_of_few(a, a, a, EffectKind::Notify);
                                },
                                None => {
                                    failures_are_contained(
                                        state,
                                        ErrorKind::EventDecode,
                                        variant_not_found_text(),
                                    );
                                },
                            }
                        },
                    }
                },
                ProcessStatusView::Exited { success, status: text } => {
                    exit_ends_the_loop(success, text, event);
                },
                ProcessStatusView::Unknown { reason } => {
                    failures_are_contained(state, ErrorKind::ProcessQuery, reason);
                },
            }
        },
    }
}

/// What a whole run can ask for, whatever the child process and the tray
/// menu do and whichever failures the host reports. From an active loop the
/// tray icon is released exactly once if the run ends terminated, and not at
/// all if it ends active. At most one kill and at most one notification are
/// asked for, and never both. From a terminated loop nothing of the three is
/// asked for, and the loop stays terminated.
pub proof fn run_effects_are_bounded(state: LoopState, inputs: Seq<Input>)
    ensures
        ({
            let all = run(state, inputs);
            let released = count(all.outcome.effects, EffectKind::ReleaseTray);
            let killed = count(all.outcome.effects, EffectKind::KillProcess);
            let notified = count(all.outcome.effects, EffectKind::Notify);
            &&& state is Terminated ==> all.state is Terminated
            &&& all.outcome.control == control_of(all.state)
            &&& released == (if state is Active && all.state is Terminated {
                1nat
            } else {
                0nat
            })
            &&& killed + notified <= released
        }),
    decreases inputs.len(),
{
    if inputs.len() == 0 {
        count_of_none(EffectKind::ReleaseTray);
        count_of_none(EffectKind::KillProcess);
        count_of_none(EffectKind::Notify);
    } else {
        let before = run(state, inputs.drop_last());
        let last = step(before.state, inputs.last());
        run_effects_are_bounded(state, inputs.drop_last());
        match inputs.last() {
            Input::Tick { status, event } => {
                tick_effects_are_bounded(before.state, status, event);
                control_follows_state(
                    before.state,
                    status,
                    event,
                    ErrorKind::ProcessQuery,
                    Seq::empty(),
                );
            },
            Input::Failure { kind, reason } => {
                failures_are_contained(before.state, kind, reason);
            },
        }
        count_of_concat(before.outcome.effects, last.outcome.effects, EffectKind::ReleaseTray);
        count_of_concat(before.outcome.effects, last.outcome.effects, EffectKind::KillProcess);
        count_of_concat(before.outcome.effects, last.outcome.effects, EffectKind::Notify);
    }
}

} // verus!
