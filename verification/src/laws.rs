//! Laws of the timer engine, stated over [`TimerModel`] and proved for every
//! state, argument and time.

use crate::daemon::{PhaseLengths, TimerModel};
use crate::clock::minutes_to_nanos;
use crate::ipc::{DaemonCommand, PomoMode, ResponseView};
use vstd::prelude::*;

verus! {

/// A status taken at the very time of a start, whatever ran before, reports
/// the focus phase as running with the full phase length left, every cycle
/// still owed, and the task that was handed over.
pub proof fn lemma_start_then_status(
    s: TimerModel,
    focus_len: nat,
    break_len: nat,
    cycles: nat,
    task_id: u32,
    now: nat,
)
    ensures
        s.start(focus_len, break_len, cycles, task_id, now).status(now) == (ResponseView::Status {
            remaining_secs: focus_len * 60,
            is_running: true,
            mode: PomoMode::Focus,
            cycles_left: cycles,
            task_id: Some(task_id),
        }),
{
    let started = s.start(focus_len, break_len, cycles, task_id, now);
    assert(started.deadline == Some(now + minutes_to_nanos(focus_len)));
    assert(minutes_to_nanos(focus_len) / 1_000_000_000 == focus_len * 60);
}

/// However long after a start the status is taken, as long as no tick or
/// other command came in between, it reports the focus phase as running with
/// every cycle still owed.
pub proof fn lemma_start_then_later_status(
    s: TimerModel,
    focus_len: nat,
    break_len: nat,
    cycles: nat,
    task_id: u32,
    now: nat,
    later: nat,
)
    ensures
        s.start(focus_len, break_len, cycles, task_id, now).status(later) matches ResponseView::Status {
            is_running,
            mode,
            cycles_left,
            ..
        } && is_running && mode == PomoMode::Focus && cycles_left == cycles,
{
}

/// A pause followed by a resume at the same instant changes nothing that a
/// status shows: the report after the resume equals the report before the
/// pause, remaining seconds, phase and cycles included.
pub proof fn lemma_pause_resume_same_instant(s: TimerModel, now: nat)
    requires
        s.deadline is Some,
    ensures
        s.pause(now).resume(now).status(now) == s.status(now),
        s.deadline->0 >= now && s.paused is None ==> s.pause(now).resume(now) == s,
{
}

/// The timer after `rounds` rounds of a pause and a resume, all at the time
/// `now`.
pub open spec fn after_pause_resume_rounds(s: TimerModel, now: nat, rounds: nat) -> TimerModel
    decreases rounds,
{
    if rounds == 0 {
        s
    } else {
        after_pause_resume_rounds(s, now, (rounds - 1) as nat).pause(now).resume(now)
    }
}

/// Any number of rounds of a pause and a resume at the same instant leaves
/// the status as it was, and the timer running.
pub proof fn lemma_pause_resume_rounds(s: TimerModel, now: nat, rounds: nat)
    requires
        s.deadline is Some,
    ensures
        after_pause_resume_rounds(s, now, rounds).status(now) == s.status(now),
        after_pause_resume_rounds(s, now, rounds).deadline is Some,
    decreases rounds,
{
    if rounds > 0 {
        lemma_pause_resume_rounds(s, now, (rounds - 1) as nat);
        lemma_pause_resume_same_instant(after_pause_resume_rounds(s, now, (rounds - 1) as nat), now);
    }
}

/// A pause at one time and a resume at a later one carry the time left
/// across: the status right after the resume equals the status right before
/// the pause.
pub proof fn lemma_pause_resume_keeps_remaining(s: TimerModel, paused_at: nat, resumed_at: nat)
    requires
        s.deadline is Some,
    ensures
        s.pause(paused_at).resume(resumed_at).status(resumed_at) == s.status(paused_at),
{
}

/// A pause is refused exactly when no deadline is set, a resume exactly when
/// no pause snapshot exists, and a refused request leaves the timer as it
/// was.
pub proof fn lemma_refusals(s: TimerModel, now: nat)
    ensures
        s.response_to(DaemonCommand::Pause, now) == ResponseView::Error("Timer is not running"@) <==> s.deadline
            is None,
        s.response_to(DaemonCommand::Resume, now) == ResponseView::Error("No paused timer found"@) <==> s.paused
            is None,
        s.deadline is None ==> s.after(DaemonCommand::Pause, now) == s,
        s.paused is None ==> s.after(DaemonCommand::Resume, now) == s,
{
}

/// Every command keeps a well-formed timer well-formed; a start needs at
/// least one cycle for that.
pub proof fn lemma_commands_preserve_wf(s: TimerModel, cmd: DaemonCommand, now: nat)
    requires
        s.wf(),
        cmd matches DaemonCommand::Start { cycles, .. } ==> cycles >= 1,
    ensures
        s.after(cmd, now).wf(),
{
}

/// The periodic check keeps a well-formed timer well-formed, whether or not
/// it takes the transition.
pub proof fn lemma_tick_preserves_wf(s: TimerModel, now: nat)
    requires
        s.wf(),
    ensures
        s.tick(now).wf(),
        s.transition(now).wf() || !s.due(now),
{
}

/// In a well-formed timer the deadline and the pause snapshot are never both
/// set, and whenever no run was ever started the timer is idle with nothing
/// paused.
pub proof fn lemma_wf_excludes_running_and_paused(s: TimerModel)
    requires
        s.wf(),
    ensures
        !(s.deadline is Some && s.paused is Some),
        s.mode != PomoMode::Idle ==> s.cycles_remaining > 0,
        s.config is None ==> s.mode == PomoMode::Idle && s.paused is None && s.deadline is None,
{
}

/// Outside `Idle` the phase is accounted for: it is running or it is paused.
pub open spec fn phase_accounted(s: TimerModel) -> bool {
    s.mode != PomoMode::Idle ==> s.deadline is Some || s.paused is Some
}

/// The periodic check never leaves a phase unaccounted for: after a
/// transition the timer either rests in `Idle` or runs towards a new
/// deadline with nothing paused.
pub proof fn lemma_tick_keeps_phase_accounted(s: TimerModel, now: nat)
    requires
        s.wf(),
        phase_accounted(s),
    ensures
        phase_accounted(s.tick(now)),
        s.due(now) ==> s.tick(now).paused is None && (s.tick(now).mode == PomoMode::Idle
            <==> s.tick(now).deadline is None),
{
}

/// Every command but a stop keeps the phase accounted for. A stop clears
/// the deadline and leaves the phase standing.
pub proof fn lemma_commands_keep_phase_accounted(s: TimerModel, cmd: DaemonCommand, now: nat)
    requires
        s.wf(),
        phase_accounted(s),
        !(cmd is Stop),
    ensures
        phase_accounted(s.after(cmd, now)),
{
}

/// Whatever the state, a status that shows a phase other than `Idle` comes
/// from a timer that is running or paused, and it shows the timer as running
/// exactly when the deadline is set.
pub proof fn lemma_status_shows_consistent_state(s: TimerModel, now: nat)
    ensures
        s.status(now) matches ResponseView::Status { is_running, mode, cycles_left, .. } && (is_running
            <==> s.deadline is Some) && (mode != PomoMode::Idle ==> s.deadline is Some || s.paused is Some) && (
        s.deadline is None && s.paused is None ==> mode == PomoMode::Idle && cycles_left == 0),
{
}

/// State after the phases of a run end one after the other: phase `i` is
/// left by the periodic check `delays[i]` nanoseconds after its deadline. A
/// timer without a deadline stays as it is.
pub open spec fn after_phases(s: TimerModel, delays: Seq<nat>) -> TimerModel
    decreases delays.len(),
{
    if delays.len() == 0 {
        s
    } else {
        let before = after_phases(s, delays.drop_last());
        match before.deadline {
            Some(deadline) => before.tick(deadline + delays.last()),
            None => before,
        }
    }
}

/// A run of `cycles` cycles passes through exactly `cycles` focus phases
/// with `cycles - 1` breaks between them and then rests. Counting the phases
/// that have ended, `k`: while `k < 2 * cycles - 1`, an even `k` finds the
/// timer in focus and an odd `k` in a break, running, with
/// `cycles - ceil(k / 2)` cycles owed; at `k == 2 * cycles - 1` the timer is
/// idle, nothing runs, no cycle is owed, and a status says so.
pub proof fn lemma_run_alternates_then_rests(
    s: TimerModel,
    focus_len: nat,
    break_len: nat,
    cycles: nat,
    task_id: u32,
    now: nat,
    delays: Seq<nat>,
)
    requires
        cycles >= 1,
        delays.len() <= 2 * cycles - 1,
    ensures
        ({
            let run = after_phases(s.start(focus_len, break_len, cycles, task_id, now), delays);
            let k = delays.len();
            &&& run.wf()
            &&& run.paused is None
            &&& run.task_id == Some(task_id)
            &&& run.config == Some(
                PhaseLengths { focus: minutes_to_nanos(focus_len), rest: minutes_to_nanos(break_len) },
            )
            &&& k < 2 * cycles - 1 && k % 2 == 0 ==> run.mode == PomoMode::Focus && run.deadline is Some
                && run.cycles_remaining == cycles - k / 2
            &&& k < 2 * cycles - 1 && k % 2 == 1 ==> run.mode == PomoMode::Break && run.deadline is Some
                && run.cycles_remaining == cycles - (k + 1) / 2
            &&& k == 2 * cycles - 1 ==> run.mode == PomoMode::Idle && run.deadline is None && run.cycles_remaining
                == 0 && run.status(now) == (ResponseView::Status {
                remaining_secs: 0,
                is_running: false,
                mode: PomoMode::Idle,
                cycles_left: 0,
                task_id: Some(task_id),
            })
        }),
    decreases delays.len(),
{
    let started = s.start(focus_len, break_len, cycles, task_id, now);
    if delays.len() > 0 {
        lemma_run_alternates_then_rests(s, focus_len, break_len, cycles, task_id, now, delays.drop_last());
        let before = after_phases(started, delays.drop_last());
        let k = delays.len();
        assert(delays.drop_last().len() == k - 1);
        assert(before.deadline is Some);
        let at = before.deadline->0 + delays.last();
        assert(before.due(at));
        assert(after_phases(started, delays) == before.transition(at));
    }
}

/// After the last phase of a run has ended, further checks change nothing:
/// the timer stays at rest.
pub proof fn lemma_rest_is_final(s: TimerModel, now: nat)
    requires
        s.wf(),
        s.mode == PomoMode::Idle,
    ensures
        s.tick(now) == s,
{
}

} // verus!
