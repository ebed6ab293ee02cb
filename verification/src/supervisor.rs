//! The supervision loop: what one tick decides.
//!
//! A tick first checks whether the child process has exited. Only if it is
//! still running does the tick look at one pending tray-menu event. The
//! supervisor performs no side effect itself: each step returns the side
//! effects that the host is to perform, in order, and whether the host is to
//! poll again or to stop.

use crate::error::disposition_of;
use crate::error::error_message;
use crate::error::Disposition;
use crate::error::ErrorKind;
use crate::message::decoded;
use crate::message::parse_error_text;
use crate::message::variant_not_found_text;
use crate::message::TrayMessage;
use crate::notification::exited_notification_of;
use crate::notification::Notification;
use crate::notification::NotificationView;
use std::str::FromStr;
use vstd::prelude::*;
use vstd::string::StringExecFns;

verus! {

/// The state of the supervision loop.
#[derive(Debug, Clone, Copy, PartialEq, Eq, Structural)]
pub enum LoopState {
    /// The child process is taken to be running, and the loop polls.
    Active,
    /// The loop has decided to stop. No step leaves this state.
    Terminated,
}

/// What a step tells the host to do next.
#[derive(Debug, Clone, Copy, PartialEq, Eq, Structural)]
pub enum LoopControl {
    /// Poll again as soon as possible.
    Continue,
    /// Tear down and exit.
    Terminate,
}

/// The severity of a log line.
#[derive(Debug, Clone, Copy, PartialEq, Eq, Structural)]
pub enum LogLevel {
    Info,
    Error,
}

/// What a non-blocking query of the child process has found.
#[derive(Debug, Clone, PartialEq, Eq)]
pub enum ProcessStatus {
    /// The child process has not exited.
    Running,
    /// The child process has exited. `success` tells whether it ended well,
    /// and `status` is its exit status written as text.
    Exited { success: bool, status: String },
    /// The query itself failed, for the given reason.
    Unknown { reason: String },
}

/// The mathematical content of a [`ProcessStatus`].
pub enum ProcessStatusView {
    Running,
    Exited { success: bool, status: Seq<char> },
    Unknown { reason: Seq<char> },
}

impl View for ProcessStatus {
    type V = ProcessStatusView;

    open spec fn view(&self) -> ProcessStatusView {
        match self {
            ProcessStatus::Running => ProcessStatusView::Running,
            ProcessStatus::Exited { success, status } => ProcessStatusView::Exited {
                success: *success,
                status: status@,
            },
            ProcessStatus::Unknown { reason } => ProcessStatusView::Unknown { reason: reason@ },
        }
    }
}

/// A side effect that a step asks the host to perform.
#[derive(Debug, Clone, PartialEq, Eq)]
pub enum SideEffect {
    /// Write a line to the log.
    Log { level: LogLevel, message: String },
    /// Show a desktop notification.
    Notify(Notification),
    /// Kill the child process.
    KillProcess,
    /// Open the directory of the logs in the file browser.
    OpenLogsDir,
    /// Give up the tray icon.
    ReleaseTray,
}

/// The mathematical content of a [`SideEffect`].
pub enum SideEffectView {
    Log { level: LogLevel, message: Seq<char> },
    Notify(NotificationView),
    KillProcess,
    OpenLogsDir,
    ReleaseTray,
}

impl View for SideEffect {
    type V = SideEffectView;

    open spec fn view(&self) -> SideEffectView {
        match self {
            SideEffect::Log { level, message } => SideEffectView::Log {
                level: *level,
                message: message@,
            },
            SideEffect::Notify(note) => SideEffectView::Notify(note@),
            SideEffect::KillProcess => SideEffectView::KillProcess,
            SideEffect::OpenLogsDir => SideEffectView::OpenLogsDir,
            SideEffect::ReleaseTray => SideEffectView::ReleaseTray,
        }
    }
}

/// What a step hands to the host.
#[derive(Debug, Clone, PartialEq, Eq)]
pub struct Outcome {
    /// Whether to poll again or to stop.
    pub control: LoopControl,
    /// The side effects to perform, in this order.
    pub effects: Vec<SideEffect>,
}

/// The mathematical content of an [`Outcome`].
pub struct OutcomeView {
    pub control: LoopControl,
    pub effects: Seq<SideEffectView>,
}

impl View for Outcome {
    type V = OutcomeView;

    open spec fn view(&self) -> OutcomeView {
        OutcomeView {
            control: self.control,
            effects: Seq::new(self.effects@.len(), |i: int| self.effects@[i]@),
        }
    }
}

/// A step of the loop: the state it leads to and what it hands to the host.
pub struct Transition {
    pub state: LoopState,
    pub outcome: OutcomeView,
}

/// The control that goes with a state: a terminated loop stops, an active
/// one polls again.
pub open spec fn control_of(state: LoopState) -> LoopControl {
    match state {
        LoopState::Active => LoopControl::Continue,
        LoopState::Terminated => LoopControl::Terminate,
    }
}

/// The step that changes nothing and asks for nothing.
pub open spec fn idle_step(state: LoopState) -> Transition {
    Transition {
        state,
        outcome: OutcomeView { control: control_of(state), effects: Seq::empty() },
    }
}

/// The step that stops the loop with the given side effects.
pub open spec fn stop_step(effects: Seq<SideEffectView>) -> Transition {
    Transition {
        state: LoopState::Terminated,
        outcome: OutcomeView { control: LoopControl::Terminate, effects },
    }
}

/// The log line that records the exit of the child process: an information
/// if it ended well, an error if not. Either way it ends in the status.
pub open spec fn exit_log_of(success: bool, status: Seq<char>) -> SideEffectView {
    if success {
        SideEffectView::Log {
            level: LogLevel::Info,
            message: "Command exited successfully: "@ + status,
        }
    } else {
        SideEffectView::Log {
            level: LogLevel::Error,
            message: "Command exited with status: "@ + status,
        }
    }
}

/// The log line that records a failure.
pub open spec fn failure_log_of(kind: ErrorKind, reason: Seq<char>) -> SideEffectView {
    SideEffectView::Log { level: LogLevel::Error, message: error_message(kind, reason) }
}

/// What a reported failure leads to. It is always logged. In an active loop
/// a failure that is not swallowed stops the loop and releases the tray
/// icon; otherwise the state stays as it is.
pub open spec fn failure_step(state: LoopState, kind: ErrorKind, reason: Seq<char>) -> Transition {
    if state is Active && disposition_of(kind) != Disposition::Swallow {
        stop_step(seq![failure_log_of(kind, reason), SideEffectView::ReleaseTray])
    } else {
        Transition {
            state,
            outcome: OutcomeView {
                control: control_of(state),
                effects: seq![failure_log_of(kind, reason)],
            },
        }
    }
}

/// The first check of a tick: has the child process exited?
pub open spec fn exit_step(state: LoopState, status: ProcessStatusView) -> Transition {
    match state {
        LoopState::Terminated => idle_step(state),
        LoopState::Active => match status {
            ProcessStatusView::Running => idle_step(state),
            ProcessStatusView::Exited { success, status } => stop_step(
                seq![
                    exit_log_of(success, status),
                    SideEffectView::Notify(exited_notification_of(status)),
                    SideEffectView::ReleaseTray,
                ],
            ),
            ProcessStatusView::Unknown { reason } => failure_step(
                state,
                ErrorKind::ProcessQuery,
                reason,
            ),
        },
    }
}

/// The second check of a tick: is a tray-menu event pending, and what does
/// it ask for?
///
/// A `Kill` event stops the loop whether or not the kill then succeeds. This
/// is a choice of policy: the user asked to stop supervising, so the tray
/// icon goes and the loop ends, and a kill that fails is only logged (see
/// [`failure_step`]).
pub open spec fn menu_step(state: LoopState, event: Option<Seq<char>>) -> Transition {
    match state {
        LoopState::Terminated => idle_step(state),
        LoopState::Active => match event {
            None => idle_step(state),
            Some(id) => match decoded(id) {
                Some(TrayMessage::Kill) => stop_step(
                    seq![SideEffectView::KillProcess, SideEffectView::ReleaseTray],
                ),
                Some(TrayMessage::ShowLogs) => Transition {
                    state,
                    outcome: OutcomeView {
                        control: LoopControl::Continue,
                        effects: seq![SideEffectView::OpenLogsDir],
                    },
                },
                None => failure_step(state, ErrorKind::EventDecode, variant_not_found_text()),
            },
        },
    }
}

/// One tick: the exit check and, only if the loop goes on after it, the
/// menu check.
pub open spec fn tick_step(
    state: LoopState,
    status: ProcessStatusView,
    event: Option<Seq<char>>,
) -> Transition {
    let first = exit_step(state, status);
    if first.outcome.control is Terminate {
        first
    } else {
        let second = menu_step(first.state, event);
        Transition {
            state: second.state,
            outcome: OutcomeView {
                control: second.outcome.control,
                effects: first.outcome.effects + second.outcome.effects,
            },
        }
    }
}

/// The identifier of a received event as a sequence of characters.
pub open spec fn event_view(event: Option<String>) -> Option<Seq<char>> {
    match event {
        Some(id) => Some(id@),
        None => None,
    }
}

/// The identifier of a pending event as a sequence of characters.
pub open spec fn identifier_of(event: Option<&str>) -> Option<Seq<char>> {
    match event {
        Some(id) => Some(id@),
        None => None,
    }
}

/// Whether a tick of an active loop that led to `state` and handed out
/// `outcome` is explained by the two sources: `status` is what the query of
/// the child process answered; `event` is what the event source answered if
/// the child was still running, and nothing if it was not; and the tick did
/// what [`tick_step`] says for these two answers.
pub open spec fn tick_explained<P: FnOnce() -> ProcessStatus, R: FnOnce() -> Option<String>>(
    poll: P,
    receive: R,
    status: ProcessStatus,
    event: Option<String>,
    state: LoopState,
    outcome: OutcomeView,
) -> bool {
    &&& call_ensures(poll, (), status)
    &&& if status@ is Running {
        call_ensures(receive, (), event)
    } else {
        event is None
    }
    &&& state == tick_step(LoopState::Active, status@, event_view(event)).state
    &&& outcome == tick_step(LoopState::Active, status@, event_view(event)).outcome
}

/// The supervisor of one child process.
#[derive(Debug)]
pub struct Supervisor {
    state: LoopState,
}

impl View for Supervisor {
    type V = LoopState;

    closed spec fn view(&self) -> LoopState {
        self.state
    }
}

fn idle(control: LoopControl) -> (out: Outcome)
    ensures
        out@ == (OutcomeView { control, effects: Seq::empty() }),
{
    let out = Outcome { control, effects: Vec::new() };
    assert(out@.effects =~= Seq::empty());
    out
}

fn exit_log(success: bool, status: &str) -> (effect: SideEffect)
    ensures
        effect@ == exit_log_of(success, status@),
{
    if success {
        let mut message = "Command exited successfully: ".to_owned();
        message.append(status);
        SideEffect::Log { level: LogLevel::Info, message }
    } else {
        let mut message = "Command exited with status: ".to_owned();
        message.append(status);
        SideEffect::Log { level: LogLevel::Error, message }
    }
}

impl Supervisor {
    /// A supervisor for a child process that has just been started.
    pub fn new() -> (sup: Supervisor)
        ensures
            sup@ is Active,
    {
        Supervisor { state: LoopState::Active }
    }

    /// The state of the loop.
    pub fn state(&self) -> (state: LoopState)
        ensures
            state == self@,
    {
        self.state
    }

    /// Whether the loop has stopped.
    pub fn is_terminated(&self) -> (stopped: bool)
        ensures
            stopped == (self@ is Terminated),
    {
        match self.state {
            LoopState::Active => false,
            LoopState::Terminated => true,
        }
    }

    /// What the host is to do next, going by the state of the loop: stop if
    /// it is terminated, poll again if not.
    pub fn control(&self) -> (control: LoopControl)
        ensures
            control == control_of(self@),
    {
        match self.state {
            LoopState::Active => LoopControl::Continue,
            LoopState::Terminated => LoopControl::Terminate,
        }
    }

    /// Takes note of a failure that the host has met, of the given kind and
    /// for the given reason, and says what follows from it.
    pub fn report_failure(&mut self, kind: ErrorKind, reason: &str) -> (out: Outcome)
        ensures
            final(self)@ == failure_step(old(self)@, kind, reason@).state,
            out@ == failure_step(old(self)@, kind, reason@).outcome,
    {
        let mut effects: Vec<SideEffect> = Vec::new();
        effects.push(SideEffect::Log { level: LogLevel::Error, message: kind.message(reason) });
        let swallow = match kind.disposition() {
            Disposition::Swallow => true,
            _ => false,
        };
        if !self.is_terminated() && !swallow {
            effects.push(SideEffect::ReleaseTray);
            self.state = LoopState::Terminated;
        }
        let out = Outcome { control: self.control(), effects };
        assert(out@.effects =~= failure_step(old(self)@, kind, reason@).outcome.effects);
        out
    }

    /// The first check of a tick, given what the query of the child process
    /// has found.
    pub fn exit_check(&mut self, status: &ProcessStatus) -> (out: Outcome)
        ensures
            final(self)@ == exit_step(old(self)@, status@).state,
            out@ == exit_step(old(self)@, status@).outcome,
    {
        if self.is_terminated() {
            return idle(LoopControl::Terminate);
        }
        match status {
            ProcessStatus::Running => idle(LoopControl::Continue),
            ProcessStatus::Exited { success, status: text } => {
                let mut effects: Vec<SideEffect> = Vec::new();
                effects.push(exit_log(*success, text.as_str()));
                effects.push(SideEffect::Notify(Notification::exited(text.as_str())));
                effects.push(SideEffect::ReleaseTray);
                self.state = LoopState::Terminated;
                let out = Outcome { control: LoopControl::Terminate, effects };
                assert(out@.effects =~= exit_step(old(self)@, status@).outcome.effects);
                out
            },
            ProcessStatus::Unknown { reason } => self.report_failure(
                ErrorKind::ProcessQuery,
                reason.as_str(),
            ),
        }
    }

    /// The second check of a tick, given the identifier of the pending
    /// tray-menu event, if there is one.
    pub fn menu_check(&mut self, event: Option<&str>) -> (out: Outcome)
        ensures
            final(self)@ == menu_step(old(self)@, identifier_of(event)).state,
            out@ == menu_step(old(self)@, identifier_of(event)).outcome,
    {
        if self.is_terminated() {
            return idle(LoopControl::Terminate);
        }
        let id = match event {
            None => {
                return idle(LoopControl::Continue);
            },
            Some(id) => id,
        };
        match TrayMessage::from_str(id) {
            Ok(TrayMessage::Kill) => {
                let mut effects: Vec<SideEffect> = Vec::new();
                effects.push(SideEffect::KillProcess);
                effects.push(SideEffect::ReleaseTray);
                self.state = LoopState::Terminated;
                let out = Outcome { control: LoopControl::Terminate, effects };
                assert(out@.effects =~= seq![
                    SideEffectView::KillProcess,
                    SideEffectView::ReleaseTray,
                ]);
                out
            },
            Ok(TrayMessage::ShowLogs) => {
                let mut effects: Vec<SideEffect> = Vec::new();
                effects.push(SideEffect::OpenLogsDir);
                let out = Outcome { control: LoopControl::Continue, effects };
                assert(out@.effects =~= seq![SideEffectView::OpenLogsDir]);
                out
            },
            Err(err) => {
                let reason = parse_error_text(&err);
                self.report_failure(ErrorKind::EventDecode, reason.as_str())
            },
        }
    }

    /// One tick of the loop. A terminated supervisor asks neither source and
    /// does nothing. An active one asks `poll` for the state of the child
    /// process; only if the child is still running does it ask `receive`
    /// for one pending tray-menu event.
    pub fn tick<P: FnOnce() -> ProcessStatus, R: FnOnce() -> Option<String>>(
        &mut self,
        poll: P,
        receive: R,
    ) -> (out: Outcome)
        requires
            call_requires(poll, ()),
            call_requires(receive, ()),
        ensures
            old(self)@ is Terminated ==> final(self)@ is Terminated && out@ == idle_step(
                LoopState::Terminated,
            ).outcome,
            old(self)@ is Active ==> exists|status: ProcessStatus, event: Option<String>|
                #[trigger] tick_explained(poll, receive, status, event, final(self)@, out@),
    {
        if self.is_terminated() {
            return idle(LoopControl::Terminate);
        }
        let status = poll();
        let first = self.exit_check(&status);
        match first.control {
            LoopControl::Terminate => {
                assert(tick_explained(poll, receive, status, None, self@, first@));
                first
            },
            LoopControl::Continue => {
                let event = receive();
                let second = match &event {
                    Some(id) => self.menu_check(Some(id.as_str())),
                    None => self.menu_check(None),
                };
                assert(first@.effects + second@.effects =~= second@.effects);
                assert(tick_explained(poll, receive, status, event, self@, second@));
                second
            },
        }
    }
}

} // verus!
