//! The run-level coordinator: a shared tri-state intention plus two
//! level-triggered boolean signals ("running", "paused") that decouple the
//! control handler's writes from the dispatch loop and the application task
//! that must observe them.
//!
//! This component is pure signaling: it never reports status or blocks. The
//! control handler applies events here and returns quickly; the dispatch
//! loop polls the intention and waits on the signals.

use vstd::prelude::*;

use crate::Error;
use crate::service_dispatcher::{
    ServiceEvent, acknowledgement, spec_acknowledgement, spec_event_from_raw,
    ERROR_CALL_NOT_IMPLEMENTED,
};

verus! {

/// The level the service is intended to run at. `Started` is the initial
/// level; `Stopped` is terminal.
#[derive(Clone, Copy, PartialEq, Eq, Structural, Debug)]
pub enum RunLevel {
    Stopped,
    Paused,
    Started,
}

/// Whether an event moves the run level at all; `Interrogate` and
/// `ParamChange` never do.
pub open spec fn spec_is_transition(event: ServiceEvent) -> bool {
    event is Pause || event is Continue || event is Stop
}

/// The level a transition event asks for.
pub open spec fn spec_target_level(event: ServiceEvent) -> RunLevel {
    match event {
        ServiceEvent::Pause => RunLevel::Paused,
        ServiceEvent::Continue => RunLevel::Started,
        ServiceEvent::Stop => RunLevel::Stopped,
        _ => RunLevel::Started,
    }
}

/// One step of the run-level state machine. `Stopped` is terminal: no event
/// leaves it. From a non-terminal level, `Pause`, `Continue` and `Stop` move
/// to their target level (idempotently), and every other event changes
/// nothing.
pub open spec fn spec_apply(level: RunLevel, event: ServiceEvent) -> RunLevel {
    if level is Stopped {
        RunLevel::Stopped
    } else if spec_is_transition(event) {
        spec_target_level(event)
    } else {
        level
    }
}

/// The run level after a whole sequence of events, starting from `level`.
pub open spec fn spec_apply_events(level: RunLevel, events: Seq<ServiceEvent>) -> RunLevel
    decreases events.len(),
{
    if events.len() == 0 {
        level
    } else {
        spec_apply(spec_apply_events(level, events.drop_last()), events.last())
    }
}

/// The run-level coordinator: the intention written by the control handler
/// and read by the dispatch loop, plus the two level-triggered signals
/// observed by the loop and by the application task.
#[derive(Clone, Copy, PartialEq, Eq, Structural, Debug)]
pub struct RunLevelCoordinator {
    /// The intended run level; readers poll it.
    pub intention: RunLevel,
    /// The "running" signal watched by the application task.
    pub running: bool,
    /// The "paused" signal the dispatch loop waits on.
    pub paused: bool,
}

impl RunLevelCoordinator {
    /// The two signals always reflect the current intention.
    pub open spec fn wf(self) -> bool {
        self.running == (self.intention is Started) && self.paused == (self.intention is Paused)
    }

    /// A fresh coordinator: intention `Started`, running asserted, paused
    /// cleared.
    pub fn new() -> (r: RunLevelCoordinator)
        ensures
            r.intention is Started,
            r.running,
            !r.paused,
            r.wf(),
    {
        RunLevelCoordinator { intention: RunLevel::Started, running: true, paused: false }
    }

    /// Apply one decoded control event. `Pause`, `Continue` and `Stop` move
    /// the intention and re-assert both signals and are acknowledged with
    /// success; `Interrogate` and `ParamChange` change nothing and report
    /// that they are not implemented here.
    pub fn handle_event(&mut self, event: ServiceEvent) -> (r: Result<(), Error>)
        requires
            old(self).wf(),
        ensures
            final(self).intention == spec_apply(old(self).intention, event),
            final(self).wf(),
            r is Ok <==> spec_is_transition(event),
            r matches Err(e) ==> e.code == ERROR_CALL_NOT_IMPLEMENTED,
    {
        match event {
            ServiceEvent::Pause => {
                if self.intention != RunLevel::Stopped {
                    self.intention = RunLevel::Paused;
                    self.paused = true;
                    self.running = false;
                }
                Ok(())
            }
            ServiceEvent::Continue => {
                if self.intention != RunLevel::Stopped {
                    self.intention = RunLevel::Started;
                    self.running = true;
                    self.paused = false;
                }
                Ok(())
            }
            ServiceEvent::Stop => {
                self.intention = RunLevel::Stopped;
                self.running = false;
                self.paused = false;
                Ok(())
            }
            _ => Err(Error { code: ERROR_CALL_NOT_IMPLEMENTED }),
        }
    }

    /// The whole control event channel for the built-in handler: decode a
    /// raw control code, apply it, and return the acknowledgement owed to
    /// the host. Unrecognized codes are acknowledged as not implemented and
    /// change nothing.
    pub fn handle_control(&mut self, control: u32) -> (ack: u32)
        requires
            old(self).wf(),
        ensures
            final(self).intention == spec_apply_control(old(self).intention, control),
            final(self).wf(),
            ack == spec_control_acknowledgement(control),
    {
        match ServiceEvent::from_raw(control) {
            Some(event) => {
                let outcome = self.handle_event(event);
                acknowledgement(control, outcome)
            }
            None => ERROR_CALL_NOT_IMPLEMENTED,
        }
    }
}

/// The run level after one raw control code: unrecognized codes change
/// nothing, recognized ones act as their event does.
pub open spec fn spec_apply_control(level: RunLevel, control: u32) -> RunLevel {
    match spec_event_from_raw(control) {
        Some(event) => spec_apply(level, event),
        None => level,
    }
}

/// The acknowledgement the built-in handler owes for a raw control code:
/// success for the three transitions and for `Interrogate`, not implemented
/// for `ParamChange` and for every unrecognized code.
pub open spec fn spec_control_acknowledgement(control: u32) -> u32 {
    match spec_event_from_raw(control) {
        Some(event) => {
            if spec_is_transition(event) {
                spec_acknowledgement(control, Ok(()))
            } else {
                spec_acknowledgement(control, Err(Error { code: ERROR_CALL_NOT_IMPLEMENTED }))
            }
        }
        None => ERROR_CALL_NOT_IMPLEMENTED,
    }
}

/// Events that are not transitions never change the run level.
pub proof fn lemma_non_transition_events_inert(level: RunLevel, event: ServiceEvent)
    requires
        !spec_is_transition(event),
    ensures
        spec_apply(level, event) == level,
{
}

/// For any finite sequence of events that contains no `Stop`, the resulting
/// run level is exactly the level implied by the last `Pause` or `Continue`
/// in the sequence, or `Started` if none occurred; and the sequence never
/// reaches the terminal level.
pub proof fn lemma_level_follows_last_transition(events: Seq<ServiceEvent>)
    requires
        forall|i: int| 0 <= i < events.len() ==> !(#[trigger] events[i] is Stop),
    ensures
        spec_apply_events(RunLevel::Started, events) == spec_implied_level(events),
        !(spec_apply_events(RunLevel::Started, events) is Stopped),
    decreases events.len(),
{
    if events.len() > 0 {
        let prefix = events.drop_last();
        assert(forall|i: int| 0 <= i < prefix.len() ==> prefix[i] == events[i]);
        lemma_level_follows_last_transition(prefix);
    }
}

/// The level implied by the last `Pause`, `Continue` or `Stop` in a
/// sequence, or `Started` if the sequence holds none of them.
pub open spec fn spec_implied_level(events: Seq<ServiceEvent>) -> RunLevel
    decreases events.len(),
{
    if events.len() == 0 {
        RunLevel::Started
    } else if spec_is_transition(events.last()) {
        spec_target_level(events.last())
    } else {
        spec_implied_level(events.drop_last())
    }
}

/// From the terminal level, no sequence of events leads anywhere else.
pub proof fn lemma_stopped_absorbs(events: Seq<ServiceEvent>)
    ensures
        spec_apply_events(RunLevel::Stopped, events) is Stopped,
    decreases events.len(),
{
    if events.len() > 0 {
        lemma_stopped_absorbs(events.drop_last());
    }
}

/// Splitting a sequence of events splits the state machine run.
pub proof fn lemma_apply_events_append(level: RunLevel, a: Seq<ServiceEvent>, b: Seq<ServiceEvent>)
    ensures
        spec_apply_events(level, a + b) == spec_apply_events(spec_apply_events(level, a), b),
    decreases b.len(),
{
    if b.len() == 0 {
        assert(a + b == a);
    } else {
        lemma_apply_events_append(level, a, b.drop_last());
        assert((a + b).drop_last() == a + b.drop_last());
        assert((a + b).last() == b.last());
    }
}

/// Once `Stop` has been applied, no subsequent event changes the run level:
/// any sequence containing a `Stop` ends at the terminal level.
pub proof fn lemma_stop_is_terminal(events: Seq<ServiceEvent>, i: int)
    requires
        0 <= i < events.len(),
        events[i] is Stop,
    ensures
        spec_apply_events(RunLevel::Started, events) is Stopped,
{
    let a = events.take(i + 1);
    let b = events.skip(i + 1);
    assert(events == a + b);
    assert(a.last() == events[i]);
    lemma_apply_events_append(RunLevel::Started, a, b);
    lemma_stopped_absorbs(b);
}

/// The run level after a whole sequence of raw control codes, recognized or
/// not, starting from `level`.
pub open spec fn spec_apply_controls(level: RunLevel, controls: Seq<u32>) -> RunLevel
    decreases controls.len(),
{
    if controls.len() == 0 {
        level
    } else {
        spec_apply_control(spec_apply_controls(level, controls.drop_last()), controls.last())
    }
}

/// The level implied by the last raw code that decodes to `Pause`,
/// `Continue` or `Stop`, or `Started` if the sequence holds none of them.
pub open spec fn spec_implied_level_controls(controls: Seq<u32>) -> RunLevel
    decreases controls.len(),
{
    if controls.len() == 0 {
        RunLevel::Started
    } else {
        match spec_event_from_raw(controls.last()) {
            Some(event) => if spec_is_transition(event) {
                spec_target_level(event)
            } else {
                spec_implied_level_controls(controls.drop_last())
            },
            None => spec_implied_level_controls(controls.drop_last()),
        }
    }
}

/// For any finite sequence of raw control codes in which none decodes to
/// `Stop`, the resulting run level is exactly the level implied by the last
/// code that decodes to `Pause` or `Continue`, or `Started` if there is
/// none; codes that decode to `Interrogate` or `ParamChange`, and
/// unrecognized codes, never change it.
pub proof fn lemma_controls_follow_last_transition(controls: Seq<u32>)
    requires
        forall|i: int|
            0 <= i < controls.len() ==> spec_event_from_raw(#[trigger] controls[i]) != Some(
                ServiceEvent::Stop,
            ),
    ensures
        spec_apply_controls(RunLevel::Started, controls) == spec_implied_level_controls(controls),
        !(spec_apply_controls(RunLevel::Started, controls) is Stopped),
    decreases controls.len(),
{
    if controls.len() > 0 {
        let prefix = controls.drop_last();
        assert(forall|i: int| 0 <= i < prefix.len() ==> prefix[i] == controls[i]);
        lemma_controls_follow_last_transition(prefix);
    }
}

/// From the terminal level, no sequence of raw control codes leads anywhere
/// else.
pub proof fn lemma_stopped_absorbs_controls(controls: Seq<u32>)
    ensures
        spec_apply_controls(RunLevel::Stopped, controls) is Stopped,
    decreases controls.len(),
{
    if controls.len() > 0 {
        lemma_stopped_absorbs_controls(controls.drop_last());
    }
}

proof fn lemma_apply_controls_append(level: RunLevel, a: Seq<u32>, b: Seq<u32>)
    ensures
        spec_apply_controls(level, a + b) == spec_apply_controls(spec_apply_controls(level, a), b),
    decreases b.len(),
{
    if b.len() == 0 {
        assert(a + b == a);
    } else {
        lemma_apply_controls_append(level, a, b.drop_last());
        assert((a + b).drop_last() == a + b.drop_last());
        assert((a + b).last() == b.last());
    }
}

/// Once a code decoding to `Stop` has been handled, no subsequent control
/// code changes the run level: any sequence containing one ends at the
/// terminal level.
pub proof fn lemma_control_stop_is_terminal(controls: Seq<u32>, i: int)
    requires
        0 <= i < controls.len(),
        spec_event_from_raw(controls[i]) == Some(ServiceEvent::Stop),
    ensures
        spec_apply_controls(RunLevel::Started, controls) is Stopped,
{
    let a = controls.take(i + 1);
    let b = controls.skip(i + 1);
    assert(controls == a + b);
    assert(a.last() == controls[i]);
    lemma_apply_controls_append(RunLevel::Started, a, b);
    lemma_stopped_absorbs_controls(b);
}

} // verus!
