//! The dispatch loop's decisions and the initialization token.
//!
//! The loop itself lives with the host plumbing: it registers the control
//! handler, then repeatedly inspects the current intention and performs the
//! level-specific outside work (waiting on the paused signal, loading the
//! configuration, running the application task). Every decision it takes,
//! and every status record it must transmit, is computed here.

use vstd::prelude::*;

use crate::run_level::RunLevel;
use crate::service_dispatcher::{
    ServiceStatus, spec_paused, spec_pausing, spec_running, spec_starting, spec_stopped,
    ACCEPT_PAUSE, ACCEPT_STOP,
};

verus! {

/// What the dispatch loop must do after one iteration's status reports.
#[derive(Clone, Copy, PartialEq, Eq, Structural, Debug)]
pub enum DispatchStep {
    /// The terminal report went out; leave the loop. The process is expected
    /// to terminate shortly after.
    Exit,
    /// The paused report went out; block until the paused signal clears,
    /// then poll the intention again.
    AwaitResume,
    /// The start-pending report went out; load the configuration afresh from
    /// the store, construct a fresh initialization token, run the
    /// application task to completion, then poll the intention again.
    RunTask,
}

/// The step each run level calls for.
pub open spec fn spec_step_for(level: RunLevel) -> DispatchStep {
    match level {
        RunLevel::Stopped => DispatchStep::Exit,
        RunLevel::Paused => DispatchStep::AwaitResume,
        RunLevel::Started => DispatchStep::RunTask,
    }
}

/// The status records one iteration transmits, in order, given the level it
/// observed and the record as it stood: the terminal stopped report for
/// `Stopped`; pause-pending then paused for `Paused`; start-pending for
/// `Started`.
pub open spec fn spec_iteration_records(
    level: RunLevel,
    s: ServiceStatus,
    wait_hint: u32,
) -> Seq<ServiceStatus> {
    match level {
        RunLevel::Stopped => seq![spec_stopped(s)],
        RunLevel::Paused => seq![spec_pausing(s, wait_hint), spec_paused(spec_pausing(s, wait_hint))],
        RunLevel::Started => seq![spec_starting(s, wait_hint)],
    }
}

/// The record as it stands after one iteration: the last record transmitted.
pub open spec fn spec_status_after_iteration(
    level: RunLevel,
    s: ServiceStatus,
    wait_hint: u32,
) -> ServiceStatus {
    spec_iteration_records(level, s, wait_hint).last()
}

/// One iteration of the dispatch loop: report the status transitions the
/// observed run level calls for, and say what outside work follows. The
/// records are returned in the order they must be transmitted.
pub fn dispatch_iteration(
    level: RunLevel,
    status: &mut ServiceStatus,
    wait_hint: u32,
) -> (r: (DispatchStep, Vec<ServiceStatus>))
    requires
        old(status).current_state !is Stopped,
        level is Paused ==> old(status).checkpoint + 2 <= u32::MAX,
        level is Started ==> old(status).checkpoint < u32::MAX,
    ensures
        r.0 == spec_step_for(level),
        r.1@ == spec_iteration_records(level, *old(status), wait_hint),
        *final(status) == spec_status_after_iteration(level, *old(status), wait_hint),
        final(status).wf(),
        r.0 is Exit <==> level is Stopped,
{
    let mut records: Vec<ServiceStatus> = Vec::new();
    match level {
        RunLevel::Stopped => {
            let sent = status.stopped();
            records.push(sent);
            proof {
                assert(records@ =~= spec_iteration_records(level, *old(status), wait_hint));
            }
            (DispatchStep::Exit, records)
        }
        RunLevel::Paused => {
            let sent = status.pausing(wait_hint);
            records.push(sent);
            let sent = status.paused();
            records.push(sent);
            proof {
                assert(records@ =~= spec_iteration_records(level, *old(status), wait_hint));
            }
            (DispatchStep::AwaitResume, records)
        }
        RunLevel::Started => {
            let sent = status.starting(wait_hint);
            records.push(sent);
            proof {
                assert(records@ =~= spec_iteration_records(level, *old(status), wait_hint));
            }
            (DispatchStep::RunTask, records)
        }
    }
}

/// A capability handed to the application task for one Started-level entry
/// only: it lets the task report slow-startup progress, and its consumption
/// is the only way to reach the Running status. Dropping it without calling
/// `complete` leaves the service reported as Start-Pending, which the host
/// eventually treats as a failed start.
pub struct InitializationToken {
    /// The status reporter the token holds for the duration of the entry.
    pub status: ServiceStatus,
}

impl InitializationToken {
    /// Bind a fresh token to the reporter for one Started-level entry; the
    /// start-pending report is expected to have just gone out.
    pub fn new(status: ServiceStatus) -> (r: InitializationToken)
        requires
            status.current_state is StartPending,
        ensures
            r.status == status,
    {
        InitializationToken { status }
    }

    /// If initialization is going to take more than about a second, call
    /// this periodically as progress is made: it re-asserts Start-Pending
    /// with an advanced checkpoint, keeping the service in a legitimate
    /// pending state. Returns the record to transmit.
    pub fn still_starting(&mut self, wait_hint: u32) -> (sent: ServiceStatus)
        requires
            old(self).status.current_state !is Stopped,
            old(self).status.checkpoint < u32::MAX,
        ensures
            final(self).status == spec_starting(old(self).status, wait_hint),
            sent == final(self).status,
            final(self).status.wf(),
    {
        self.status.starting(wait_hint)
    }

    /// Notify the host that initialization is complete: consume the token,
    /// reset the checkpoint and report Running. Returns the reporter, handed
    /// back to the dispatch loop, and the record to transmit.
    pub fn complete(self) -> (r: (ServiceStatus, ServiceStatus))
        requires
            self.status.current_state !is Stopped,
        ensures
            r.0 == spec_running(self.status),
            r.1 == r.0,
            r.0.current_state is Running,
            r.0.checkpoint == 0,
            r.0.wf(),
    {
        let mut status = self.status;
        let sent = status.running();
        (status, sent)
    }
}

/// Within one pending episode, every repeated starting report strictly
/// increases the checkpoint and stays Start-Pending; the running report that
/// `complete` makes resets the checkpoint and advertises exactly
/// `{Stop, Pause}`.
pub proof fn lemma_startup_checkpoint_progress(s: ServiceStatus, wait_hint: u32)
    requires
        s.checkpoint < u32::MAX,
    ensures
        spec_starting(s, wait_hint).checkpoint > s.checkpoint,
        spec_starting(s, wait_hint).current_state is StartPending,
        spec_running(s).checkpoint == 0,
        spec_running(s).current_state is Running,
        spec_running(s).controls_accepted == (ACCEPT_STOP | ACCEPT_PAUSE),
{
}

/// How many of a sequence of records carry the terminal Stopped state.
pub open spec fn spec_count_stopped(records: Seq<ServiceStatus>) -> nat
    decreases records.len(),
{
    if records.len() == 0 {
        0
    } else {
        spec_count_stopped(records.drop_last()) + (
        if records.last().current_state is Stopped {
            1nat
        } else {
            0nat
        })
    }
}

/// All records a run of the dispatch loop transmits, given the run levels it
/// observes at its successive iterations.
pub open spec fn spec_session_records(
    levels: Seq<RunLevel>,
    s: ServiceStatus,
    wait_hint: u32,
) -> Seq<ServiceStatus>
    decreases levels.len(),
{
    if levels.len() == 0 {
        Seq::empty()
    } else {
        spec_iteration_records(levels[0], s, wait_hint) + spec_session_records(
            levels.skip(1),
            spec_status_after_iteration(levels[0], s, wait_hint),
            wait_hint,
        )
    }
}

proof fn lemma_count_stopped_append(a: Seq<ServiceStatus>, b: Seq<ServiceStatus>)
    ensures
        spec_count_stopped(a + b) == spec_count_stopped(a) + spec_count_stopped(b),
    decreases b.len(),
{
    if b.len() == 0 {
        assert(a + b == a);
    } else {
        lemma_count_stopped_append(a, b.drop_last());
        assert((a + b).drop_last() == a + b.drop_last());
        assert((a + b).last() == b.last());
    }
}

proof fn lemma_count_stopped_iteration(level: RunLevel, s: ServiceStatus, wait_hint: u32)
    ensures
        spec_count_stopped(spec_iteration_records(level, s, wait_hint)) == (
        if level is Stopped {
            1nat
        } else {
            0nat
        }),
{
    let records = spec_iteration_records(level, s, wait_hint);
    assert(spec_count_stopped(Seq::<ServiceStatus>::empty()) == 0);
    if level is Paused {
        let first = spec_pausing(s, wait_hint);
        assert(records.drop_last() =~= seq![first]);
        assert(seq![first].drop_last() =~= Seq::<ServiceStatus>::empty());
        assert(spec_count_stopped(seq![first]) == 0);
    } else {
        assert(records.drop_last() =~= Seq::<ServiceStatus>::empty());
    }
}

/// A run of the dispatch loop that exits at its first Stopped observation —
/// as the loop does — transmits exactly one terminal Stopped report, and no
/// iteration before that transmits any.
pub proof fn lemma_exactly_one_stopped_report(levels: Seq<RunLevel>, s: ServiceStatus, wait_hint: u32)
    requires
        levels.len() > 0,
        forall|i: int| 0 <= i < levels.len() - 1 ==> !(#[trigger] levels[i] is Stopped),
        levels.last() is Stopped,
    ensures
        spec_count_stopped(spec_session_records(levels, s, wait_hint)) == 1,
    decreases levels.len(),
{
    let head = spec_iteration_records(levels[0], s, wait_hint);
    let rest = spec_session_records(
        levels.skip(1),
        spec_status_after_iteration(levels[0], s, wait_hint),
        wait_hint,
    );
    lemma_count_stopped_append(head, rest);
    lemma_count_stopped_iteration(levels[0], s, wait_hint);
    if levels.len() == 1 {
        assert(levels[0] == levels.last());
        assert(spec_count_stopped(rest) == 0);
    } else {
        assert(!(levels[0] is Stopped));
        let tail = levels.skip(1);
        assert(tail.last() == levels.last());
        assert(forall|i: int| 0 <= i < tail.len() - 1 ==> tail[i] == levels[i + 1]);
        lemma_exactly_one_stopped_report(
            tail,
            spec_status_after_iteration(levels[0], s, wait_hint),
            wait_hint,
        );
    }
}

} // verus!
