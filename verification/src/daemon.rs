//! The timer engine: one focus/break timer, the operations a client can ask
//! for, and the transition taken when a phase runs out.

use crate::clock::{minutes_to_nanos, saturating_diff, whole_secs, Moment, Span, MAX_NANOS, SECS_PER_MINUTE};
use crate::ipc::{DaemonCommand, DaemonResponse, PomoMode, ResponseView};
use crate::text::{decimal, push_decimal};
use vstd::prelude::*;
use vstd::string::StringExecFns;

verus! {

/// Lengths of the two kinds of phase, in nanoseconds.
pub struct PhaseLengths {
    pub focus: nat,
    pub rest: nat,
}

/// Message shown to the user when a phase ends.
#[derive(Clone, Copy, Debug, PartialEq, Eq, Structural)]
pub enum Notice {
    /// A focus phase ended and a break begins.
    FocusComplete,
    /// The last focus phase ended; the run is over.
    AllFinished,
    /// A break ended and the next focus phase begins.
    BreakOver,
}

/// Why the engine refused an operation.
#[derive(Clone, Copy, Debug, PartialEq, Eq, Structural)]
pub enum EngineError {
    /// Pause was asked for while no deadline was set.
    NotRunning,
    /// Resume was asked for while no pause snapshot existed.
    NothingPaused,
}

/// Mathematical state of the timer. Times are nanoseconds on the daemon's
/// clock.
pub struct TimerModel {
    pub mode: PomoMode,
    /// When the current phase ends; `None` while not running.
    pub deadline: Option<nat>,
    /// Focus phases still owed.
    pub cycles_remaining: nat,
    /// Phase lengths of the current run.
    pub config: Option<PhaseLengths>,
    /// Time that was left in the phase interrupted by a pause.
    pub paused: Option<nat>,
    pub task_id: Option<u32>,
}

/// Confirmation text of a start.
pub open spec fn started_message(focus_len: nat, break_len: nat, cycles: nat) -> Seq<char> {
    "Started: "@ + decimal(focus_len) + "m Focus, "@ + decimal(break_len) + "m Break ("@ + decimal(
        cycles,
    ) + " cycles)"@
}

/// Confirmation text of a pause with `secs` whole seconds left.
pub open spec fn paused_message(secs: nat) -> Seq<char> {
    "Paused with "@ + decimal(secs) + "s remaining"@
}

impl TimerModel {
    /// The state at daemon startup.
    pub open spec fn idle() -> TimerModel {
        TimerModel {
            mode: PomoMode::Idle,
            deadline: None,
            cycles_remaining: 0,
            config: None,
            paused: None,
            task_id: None,
        }
    }

    /// What every reachable state satisfies: a phase is never both running and
    /// paused; outside `Idle` a focus phase is still owed and the phase
    /// lengths are known; in `Idle` nothing runs and nothing is paused.
    pub open spec fn wf(self) -> bool {
        &&& !(self.deadline is Some && self.paused is Some)
        &&& (self.mode != PomoMode::Idle ==> self.cycles_remaining >= 1 && self.config is Some)
        &&& (self.mode == PomoMode::Idle ==> self.deadline is None && self.paused is None)
    }

    /// State after a start at time `now` with phase lengths in minutes.
    pub open spec fn start(self, focus_len: nat, break_len: nat, cycles: nat, task_id: u32, now: nat) -> TimerModel {
        TimerModel {
            mode: PomoMode::Focus,
            deadline: Some(now + minutes_to_nanos(focus_len)),
            cycles_remaining: cycles,
            config: Some(PhaseLengths { focus: minutes_to_nanos(focus_len), rest: minutes_to_nanos(break_len) }),
            paused: None,
            task_id: Some(task_id),
        }
    }

    /// State after a stop: the deadline and the task are gone, all else stays.
    pub open spec fn stop(self) -> TimerModel {
        TimerModel { deadline: None, task_id: None, ..self }
    }

    /// State after a pause at time `now`; unchanged when nothing runs.
    pub open spec fn pause(self, now: nat) -> TimerModel {
        match self.deadline {
            Some(deadline) => TimerModel { paused: Some(saturating_diff(deadline, now)), deadline: None, ..self },
            None => self,
        }
    }

    /// State after a resume at time `now`; unchanged when nothing is paused.
    pub open spec fn resume(self, now: nat) -> TimerModel {
        match self.paused {
            Some(left) => TimerModel { deadline: Some(now + left), paused: None, ..self },
            None => self,
        }
    }

    /// The status reported at time `now`.
    pub open spec fn status(self, now: nat) -> ResponseView {
        match self.deadline {
            Some(deadline) => ResponseView::Status {
                remaining_secs: whole_secs(saturating_diff(deadline, now)),
                is_running: true,
                mode: self.mode,
                cycles_left: self.cycles_remaining,
                task_id: self.task_id,
            },
            None => match self.paused {
                Some(left) => ResponseView::Status {
                    remaining_secs: whole_secs(left),
                    is_running: false,
                    mode: self.mode,
                    cycles_left: self.cycles_remaining,
                    task_id: self.task_id,
                },
                None => ResponseView::Status {
                    remaining_secs: 0,
                    is_running: false,
                    mode: PomoMode::Idle,
                    cycles_left: 0,
                    task_id: self.task_id,
                },
            },
        }
    }

    /// The rest state: `Idle`, nothing running, nothing paused, no cycle owed.
    /// Phase lengths and task stay as they were.
    pub open spec fn reset(self) -> TimerModel {
        TimerModel { mode: PomoMode::Idle, deadline: None, paused: None, cycles_remaining: 0, ..self }
    }

    /// Whether the deadline is set and has been reached at time `now`.
    pub open spec fn due(self, now: nat) -> bool {
        self.deadline is Some && now >= self.deadline->0
    }

    /// State after the phase that ran out is left at time `now`.
    pub open spec fn transition(self, now: nat) -> TimerModel {
        match self.mode {
            PomoMode::Focus => if self.cycles_remaining > 1 && self.config is Some {
                TimerModel {
                    mode: PomoMode::Break,
                    cycles_remaining: (self.cycles_remaining - 1) as nat,
                    deadline: Some(now + self.config->0.rest),
                    ..self
                }
            } else {
                self.reset()
            },
            PomoMode::Break => if self.config is Some {
                TimerModel { mode: PomoMode::Focus, deadline: Some(now + self.config->0.focus), ..self }
            } else {
                self.reset()
            },
            PomoMode::Idle => self.reset(),
        }
    }

    /// What the user is told when the phase that ran out is left.
    pub open spec fn notice(self) -> Option<Notice> {
        match self.mode {
            PomoMode::Focus => if self.cycles_remaining > 1 && self.config is Some {
                Some(Notice::FocusComplete)
            } else {
                Some(Notice::AllFinished)
            },
            PomoMode::Break => if self.config is Some {
                Some(Notice::BreakOver)
            } else {
                None
            },
            PomoMode::Idle => None,
        }
    }

    /// State after the periodic check at time `now`: the transition when the
    /// deadline has been reached, no change otherwise.
    pub open spec fn tick(self, now: nat) -> TimerModel {
        if self.due(now) {
            self.transition(now)
        } else {
            self
        }
    }

    /// Whether the deadline that a transition at time `now` would set is
    /// representable.
    pub open spec fn transition_fits(self, now: nat) -> bool {
        match self.mode {
            PomoMode::Focus => self.cycles_remaining > 1 && self.config is Some ==> now + self.config->0.rest
                <= MAX_NANOS,
            PomoMode::Break => self.config is Some ==> now + self.config->0.focus <= MAX_NANOS,
            PomoMode::Idle => true,
        }
    }

    /// Whether a start with these arguments at time `now` is within the
    /// engine's limits: at least one cycle, phase lengths whose seconds fit in
    /// 64 bits, and a representable first deadline.
    pub open spec fn start_fits(focus_len: nat, break_len: nat, cycles: nat, now: nat) -> bool {
        &&& cycles >= 1
        &&& focus_len * 60 <= u64::MAX
        &&& break_len * 60 <= u64::MAX
        &&& now + minutes_to_nanos(focus_len) <= MAX_NANOS
    }

    /// Whether the deadline that a resume at time `now` would set is
    /// representable.
    pub open spec fn resume_fits(self, now: nat) -> bool {
        self.paused is Some ==> now + self.paused->0 <= MAX_NANOS
    }

    /// Whether the command can be carried out at time `now` within the
    /// engine's limits.
    pub open spec fn accepts(self, cmd: DaemonCommand, now: nat) -> bool {
        match cmd {
            DaemonCommand::Start { task_id, focus_len, break_len, cycles } => Self::start_fits(
                focus_len as nat,
                break_len as nat,
                cycles as nat,
                now,
            ),
            DaemonCommand::Resume => self.resume_fits(now),
            _ => true,
        }
    }

    /// State after the command is carried out at time `now`.
    pub open spec fn after(self, cmd: DaemonCommand, now: nat) -> TimerModel {
        match cmd {
            DaemonCommand::Start { task_id, focus_len, break_len, cycles } => self.start(
                focus_len as nat,
                break_len as nat,
                cycles as nat,
                task_id,
                now,
            ),
            DaemonCommand::Stop => self.stop(),
            DaemonCommand::Pause => self.pause(now),
            DaemonCommand::Resume => self.resume(now),
            DaemonCommand::Status => self,
            DaemonCommand::Ping => self,
            DaemonCommand::Kill => self,
        }
    }

    /// The answer to the command when it arrives at time `now`.
    pub open spec fn response_to(self, cmd: DaemonCommand, now: nat) -> ResponseView {
        match cmd {
            DaemonCommand::Start { task_id, focus_len, break_len, cycles } => ResponseView::Okay(
                started_message(focus_len as nat, break_len as nat, cycles as nat),
            ),
            DaemonCommand::Stop => ResponseView::Okay("Timer stopped"@),
            DaemonCommand::Status => self.status(now),
            DaemonCommand::Pause => match self.deadline {
                Some(deadline) => ResponseView::Okay(paused_message(whole_secs(saturating_diff(deadline, now)))),
                None => ResponseView::Error("Timer is not running"@),
            },
            DaemonCommand::Resume => match self.paused {
                Some(left) => ResponseView::Okay("Timer resumed"@),
                None => ResponseView::Error("No paused timer found"@),
            },
            DaemonCommand::Kill => ResponseView::Okay("Daemon killing itself."@),
            DaemonCommand::Ping => ResponseView::Pong,
        }
    }
}


impl Notice {
    /// Title under which every notice is shown.
    pub fn summary(&self) -> (text: &'static str)
        ensures
            text@ == "Taiga"@,
    {
        "Taiga"
    }

    /// Text of the notice.
    pub open spec fn body_text(self) -> Seq<char> {
        match self {
            Notice::FocusComplete => "Focus complete! Take a break."@,
            Notice::AllFinished => "All Pomodoros finished! Great work."@,
            Notice::BreakOver => "Break over! Back to work."@,
        }
    }

    /// Text of the notice.
    pub fn body(&self) -> (text: &'static str)
        ensures
            text@ == self.body_text(),
    {
        match self {
            Notice::FocusComplete => "Focus complete! Take a break.",
            Notice::AllFinished => "All Pomodoros finished! Great work.",
            Notice::BreakOver => "Break over! Back to work.",
        }
    }
}

impl EngineError {
    /// Text sent to the client for this refusal.
    pub open spec fn message_text(self) -> Seq<char> {
        match self {
            EngineError::NotRunning => "Timer is not running"@,
            EngineError::NothingPaused => "No paused timer found"@,
        }
    }

    /// Text sent to the client for this refusal.
    pub fn message(&self) -> (text: String)
        ensures
            text@ == self.message_text(),
    {
        match self {
            EngineError::NotRunning => String::from_str("Timer is not running"),
            EngineError::NothingPaused => String::from_str("No paused timer found"),
        }
    }
}

/// Phase lengths of a run, fixed by the start that began it.
#[derive(Clone, Copy, Debug, PartialEq, Eq)]
pub struct TimerConfig {
    focus_duration: Span,
    break_duration: Span,
}

impl View for TimerConfig {
    type V = PhaseLengths;

    closed spec fn view(&self) -> PhaseLengths {
        PhaseLengths { focus: self.focus_duration@, rest: self.break_duration@ }
    }
}

impl TimerConfig {
    /// Length of a focus phase.
    pub fn focus_duration(&self) -> (span: Span)
        ensures
            span@ == self@.focus,
    {
        self.focus_duration
    }

    /// Length of a break.
    pub fn break_duration(&self) -> (span: Span)
        ensures
            span@ == self@.rest,
    {
        self.break_duration
    }
}

/// The timer the daemon owns. Its view is a [`TimerModel`].
#[derive(Debug, PartialEq, Eq)]
pub struct TimerState {
    mode: PomoMode,
    end_time: Option<Moment>,
    cycles_remaining: u32,
    config: Option<TimerConfig>,
    task_id: Option<u32>,
    paused_duration: Option<Span>,
}

/// What the server does with one request: the response to send, and whether
/// the daemon terminates once the response has been written.
#[derive(Debug, PartialEq, Eq)]
pub struct Reply {
    pub response: DaemonResponse,
    pub shutdown: bool,
}

/// What a connection handler got from its one read.
#[derive(Clone, Copy, Debug, PartialEq, Eq, Structural)]
pub enum Inbound {
    /// The read returned no bytes: the peer closed without asking anything.
    Closed,
    /// Bytes arrived that do not decode to a request.
    Malformed,
    /// A request arrived.
    Request(DaemonCommand),
}

impl View for TimerState {
    type V = TimerModel;

    closed spec fn view(&self) -> TimerModel {
        TimerModel {
            mode: self.mode,
            deadline: match self.end_time {
                Some(end) => Some(end@),
                None => None,
            },
            cycles_remaining: self.cycles_remaining as nat,
            config: match self.config {
                Some(config) => Some(config@),
                None => None,
            },
            paused: match self.paused_duration {
                Some(left) => Some(left@),
                None => None,
            },
            task_id: self.task_id,
        }
    }
}

/// Builds the confirmation text of a start.
fn started_text(focus_len: u64, break_len: u64, cycles: u32) -> (text: String)
    ensures
        text@ == started_message(focus_len as nat, break_len as nat, cycles as nat),
{
    let mut text = String::from_str("Started: ");
    push_decimal(&mut text, focus_len);
    text.append("m Focus, ");
    push_decimal(&mut text, break_len);
    text.append("m Break (");
    push_decimal(&mut text, cycles as u64);
    text.append(" cycles)");
    text
}

/// Builds the confirmation text of a pause.
fn paused_text(secs: u64) -> (text: String)
    ensures
        text@ == paused_message(secs as nat),
{
    let mut text = String::from_str("Paused with ");
    push_decimal(&mut text, secs);
    text.append("s remaining");
    text
}

impl TimerState {
    /// The timer at daemon startup: idle and empty.
    pub fn new() -> (state: TimerState)
        ensures
            state@ == TimerModel::idle(),
            state@.wf(),
    {
        TimerState {
            mode: PomoMode::Idle,
            end_time: None,
            cycles_remaining: 0,
            config: None,
            task_id: None,
            paused_duration: None,
        }
    }

    /// Whether the timer is in a state that the engine's operations can
    /// reach from the one at startup.
    pub fn is_well_formed(&self) -> (well_formed: bool)
        ensures
            well_formed == self@.wf(),
    {
        let both = self.end_time.is_some() && self.paused_duration.is_some();
        let idle = match self.mode {
            PomoMode::Idle => true,
            _ => false,
        };
        if both {
            false
        } else if idle {
            self.end_time.is_none() && self.paused_duration.is_none()
        } else {
            self.cycles_remaining >= 1 && self.config.is_some()
        }
    }

    /// Current phase.
    pub fn mode(&self) -> (mode: PomoMode)
        ensures
            mode == self@.mode,
    {
        self.mode
    }

    /// When the current phase ends, if the timer is running.
    pub fn end_time(&self) -> (end: Option<Moment>)
        ensures
            end is Some <==> self@.deadline is Some,
            end is Some ==> end->0@ == self@.deadline->0,
    {
        self.end_time
    }

    /// Focus phases still owed.
    pub fn cycles_remaining(&self) -> (cycles: u32)
        ensures
            cycles == self@.cycles_remaining,
    {
        self.cycles_remaining
    }

    /// Phase lengths of the current run, if one was ever started.
    pub fn config(&self) -> (config: Option<TimerConfig>)
        ensures
            config is Some <==> self@.config is Some,
            config is Some ==> config->0@ == self@.config->0,
    {
        self.config
    }

    /// Identifier handed over by the client that started the run.
    pub fn task_id(&self) -> (task_id: Option<u32>)
        ensures
            task_id == self@.task_id,
    {
        self.task_id
    }

    /// Time that was left when the timer was paused, if it is paused.
    pub fn paused_duration(&self) -> (left: Option<Span>)
        ensures
            left is Some <==> self@.paused is Some,
            left is Some ==> left->0@ == self@.paused->0,
    {
        self.paused_duration
    }

    /// Begins a run at time `now`, replacing whatever ran before, and returns
    /// the confirmation text.
    pub fn start(&mut self, focus_len: u64, break_len: u64, cycles: u32, task_id: u32, now: Moment) -> (summary:
        String)
        requires
            TimerModel::start_fits(focus_len as nat, break_len as nat, cycles as nat, now@),
        ensures
            final(self)@ == old(self)@.start(focus_len as nat, break_len as nat, cycles as nat, task_id, now@),
            final(self)@.wf(),
            summary@ == started_message(focus_len as nat, break_len as nat, cycles as nat),
    {
        let focus = Span::from_minutes(focus_len).unwrap();
        let rest = Span::from_minutes(break_len).unwrap();
        let end = now.checked_add(focus).unwrap();
        self.config = Some(TimerConfig { focus_duration: focus, break_duration: rest });
        self.cycles_remaining = cycles;
        self.mode = PomoMode::Focus;
        self.end_time = Some(end);
        self.paused_duration = None;
        self.task_id = Some(task_id);
        started_text(focus_len, break_len, cycles)
    }

    /// Stops the timer: the deadline and the task are cleared. Phase and
    /// cycle count are left as they are.
    pub fn stop(&mut self)
        ensures
            final(self)@ == old(self)@.stop(),
            old(self)@.wf() ==> final(self)@.wf(),
    {
        self.end_time = None;
        self.task_id = None;
    }

    /// Pauses the running phase at time `now` and returns the time that was
    /// left in it, floored at zero. Refused with `NotRunning` when no
    /// deadline is set.
    pub fn pause(&mut self, now: Moment) -> (outcome: Result<Span, EngineError>)
        ensures
            old(self)@.deadline is None <==> outcome == Err::<Span, EngineError>(EngineError::NotRunning),
            old(self)@.deadline is Some <==> outcome is Ok,
            outcome is Ok ==> outcome->Ok_0@ == saturating_diff(old(self)@.deadline->0, now@),
            final(self)@ == old(self)@.pause(now@),
            old(self)@.wf() ==> final(self)@.wf(),
    {
        match self.end_time {
            Some(end) => {
                let remaining = end.saturating_duration_since(now);
                self.paused_duration = Some(remaining);
                self.end_time = None;
                Ok(remaining)
            },
            None => Err(EngineError::NotRunning),
        }
    }

    /// Resumes the paused phase at time `now`: it ends once the time left at
    /// the pause has passed again. Refused with `NothingPaused` when no pause
    /// snapshot exists.
    pub fn resume(&mut self, now: Moment) -> (outcome: Result<(), EngineError>)
        requires
            old(self)@.resume_fits(now@),
        ensures
            old(self)@.paused is None <==> outcome == Err::<(), EngineError>(EngineError::NothingPaused),
            old(self)@.paused is Some <==> outcome is Ok,
            final(self)@ == old(self)@.resume(now@),
            old(self)@.wf() ==> final(self)@.wf(),
    {
        match self.paused_duration {
            Some(left) => {
                let end = now.checked_add(left).unwrap();
                self.end_time = Some(end);
                self.paused_duration = None;
                Ok(())
            },
            None => Err(EngineError::NothingPaused),
        }
    }

    /// Reports the timer as it stands at time `now`.
    pub fn status(&self, now: Moment) -> (response: DaemonResponse)
        ensures
            response@ == self@.status(now@),
    {
        match self.end_time {
            Some(end) => DaemonResponse::Status {
                remaining_secs: end.saturating_duration_since(now).as_secs(),
                is_running: true,
                mode: self.mode,
                cycles_left: self.cycles_remaining,
                task_id: self.task_id,
            },
            None => match self.paused_duration {
                Some(left) => DaemonResponse::Status {
                    remaining_secs: left.as_secs(),
                    is_running: false,
                    mode: self.mode,
                    cycles_left: self.cycles_remaining,
                    task_id: self.task_id,
                },
                None => DaemonResponse::Status {
                    remaining_secs: 0,
                    is_running: false,
                    mode: PomoMode::Idle,
                    cycles_left: 0,
                    task_id: self.task_id,
                },
            },
        }
    }

    /// Puts the timer in its rest state: `Idle`, no deadline, no pause, no
    /// cycle owed.
    pub fn reset_state(&mut self)
        ensures
            final(self)@ == old(self)@.reset(),
            final(self)@.wf(),
    {
        self.mode = PomoMode::Idle;
        self.end_time = None;
        self.paused_duration = None;
        self.cycles_remaining = 0;
    }

    /// Whether the deadline is set and has been reached at time `now`.
    pub fn is_due(&self, now: Moment) -> (due: bool)
        ensures
            due == self@.due(now@),
    {
        match self.end_time {
            Some(end) => now.has_reached(end),
            None => false,
        }
    }

    /// Whether the deadline that a transition at time `now` would set is
    /// representable.
    pub fn transition_fits(&self, now: Moment) -> (fits: bool)
        ensures
            fits == self@.transition_fits(now@),
    {
        match self.config {
            Some(config) => match self.mode {
                PomoMode::Focus => self.cycles_remaining <= 1 || now.checked_add(config.break_duration).is_some(),
                PomoMode::Break => now.checked_add(config.focus_duration).is_some(),
                PomoMode::Idle => true,
            },
            None => true,
        }
    }

    /// Leaves the phase whose deadline has been reached at time `now` and
    /// returns what the user is to be told. After a focus phase one cycle
    /// less is owed: if any is left a break begins, else the run is over and
    /// the timer rests. After a break the next focus phase begins.
    pub fn handle_timer_transition(&mut self, now: Moment) -> (notice: Option<Notice>)
        requires
            old(self)@.wf(),
            old(self)@.due(now@),
            old(self)@.transition_fits(now@),
        ensures
            final(self)@ == old(self)@.transition(now@),
            notice == old(self)@.notice(),
            final(self)@.wf(),
    {
        match self.mode {
            PomoMode::Focus => {
                let config = self.config.unwrap();
                self.cycles_remaining = self.cycles_remaining - 1;
                if self.cycles_remaining > 0 {
                    self.mode = PomoMode::Break;
                    self.end_time = Some(now.checked_add(config.break_duration).unwrap());
                    Some(Notice::FocusComplete)
                } else {
                    self.reset_state();
                    Some(Notice::AllFinished)
                }
            },
            PomoMode::Break => {
                let config = self.config.unwrap();
                self.mode = PomoMode::Focus;
                self.end_time = Some(now.checked_add(config.focus_duration).unwrap());
                Some(Notice::BreakOver)
            },
            PomoMode::Idle => {
                self.reset_state();
                None
            },
        }
    }

    /// The periodic check at time `now`: takes the transition when the
    /// deadline has been reached and changes nothing otherwise. Returns what
    /// the user is to be told, if anything.
    pub fn tick(&mut self, now: Moment) -> (notice: Option<Notice>)
        requires
            old(self)@.wf(),
            old(self)@.due(now@) ==> old(self)@.transition_fits(now@),
        ensures
            final(self)@ == old(self)@.tick(now@),
            notice == if old(self)@.due(now@) {
                old(self)@.notice()
            } else {
                None
            },
            final(self)@.wf(),
    {
        if self.is_due(now) {
            self.handle_timer_transition(now)
        } else {
            None
        }
    }

    /// Whether the command can be carried out at time `now` within the
    /// engine's limits.
    pub fn accepts(&self, cmd: DaemonCommand, now: Moment) -> (accepted: bool)
        ensures
            accepted == self@.accepts(cmd, now@),
    {
        match cmd {
            DaemonCommand::Start { task_id, focus_len, break_len, cycles } => {
                if cycles == 0 {
                    return false;
                }
                if focus_len.checked_mul(SECS_PER_MINUTE).is_none() {
                    return false;
                }
                if break_len.checked_mul(SECS_PER_MINUTE).is_none() {
                    return false;
                }
                let focus = Span::from_minutes(focus_len).unwrap();
                now.checked_add(focus).is_some()
            },
            DaemonCommand::Resume => match self.paused_duration {
                Some(left) => now.checked_add(left).is_some(),
                None => true,
            },
            _ => true,
        }
    }

    /// Carries out one request at time `now` and says what to answer. Only
    /// `Kill` asks for the daemon to terminate, and it does so with a
    /// confirmation to be written first; engine refusals come back as
    /// `Error` responses and leave the timer as it was.
    pub fn handle_command(&mut self, cmd: DaemonCommand, now: Moment) -> (reply: Reply)
        requires
            old(self)@.accepts(cmd, now@),
        ensures
            final(self)@ == old(self)@.after(cmd, now@),
            reply.response@ == old(self)@.response_to(cmd, now@),
            reply.shutdown == (cmd is Kill),
            old(self)@.wf() ==> final(self)@.wf(),
    {
        let response = match cmd {
            DaemonCommand::Start { task_id, focus_len, break_len, cycles } => {
                let summary = self.start(focus_len, break_len, cycles, task_id, now);
                DaemonResponse::Okay(summary)
            },
            DaemonCommand::Stop => {
                self.stop();
                DaemonResponse::Okay(String::from_str("Timer stopped"))
            },
            DaemonCommand::Status => self.status(now),
            DaemonCommand::Pause => match self.pause(now) {
                Ok(remaining) => DaemonResponse::Okay(paused_text(remaining.as_secs())),
                Err(refusal) => DaemonResponse::Error(refusal.message()),
            },
            DaemonCommand::Resume => match self.resume(now) {
                Ok(()) => DaemonResponse::Okay(String::from_str("Timer resumed")),
                Err(refusal) => DaemonResponse::Error(refusal.message()),
            },
            DaemonCommand::Kill => {
                return Reply { response: DaemonResponse::Okay(String::from_str("Daemon killing itself.")), shutdown: true };
            },
            DaemonCommand::Ping => DaemonResponse::Pong,
        };
        Reply { response, shutdown: false }
    }

    /// Serves one connection at time `now`. A connection that closed without
    /// a request, or whose bytes do not decode, gets no reply and leaves the
    /// timer untouched; a request is carried out and answered.
    pub fn handle_connection(&mut self, inbound: Inbound, now: Moment) -> (reply: Option<Reply>)
        requires
            inbound matches Inbound::Request(cmd) ==> old(self)@.accepts(cmd, now@),
        ensures
            reply is Some <==> inbound is Request,
            !(inbound is Request) ==> final(self)@ == old(self)@,
            inbound matches Inbound::Request(cmd) ==> {
                &&& final(self)@ == old(self)@.after(cmd, now@)
                &&& reply->0.response@ == old(self)@.response_to(cmd, now@)
                &&& reply->0.shutdown == (cmd is Kill)
            },
            old(self)@.wf() ==> final(self)@.wf(),
    {
        match inbound {
            Inbound::Closed => None,
            Inbound::Malformed => None,
            Inbound::Request(cmd) => Some(self.handle_command(cmd, now)),
        }
    }
}

} // verus!
