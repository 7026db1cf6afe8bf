//! The control event channel and the status reporter's record.
//!
//! A control request arrives as a raw numeric code; it is decoded into a
//! [`ServiceEvent`], handed to a handler, and the handler's outcome is
//! translated back into the host's acknowledgement code. The status record
//! sent back to the host is [`ServiceStatus`]; its transition operations
//! update the record to the target semantics and hand back the exact record
//! that must be transmitted.

use vstd::prelude::*;

use crate::Error;

verus! {

/// Acknowledgement code for a successfully handled control request.
pub const NO_ERROR: u32 = 0;

/// Acknowledgement code for a control request the service does not implement.
pub const ERROR_CALL_NOT_IMPLEMENTED: u32 = 120;

/// Raw control code: stop the service.
pub const SERVICE_CONTROL_STOP: u32 = 1;

/// Raw control code: pause the service.
pub const SERVICE_CONTROL_PAUSE: u32 = 2;

/// Raw control code: resume the paused service.
pub const SERVICE_CONTROL_CONTINUE: u32 = 3;

/// Raw control code: report current status to the host.
pub const SERVICE_CONTROL_INTERROGATE: u32 = 4;

/// Raw control code: service parameters have changed.
pub const SERVICE_CONTROL_PARAMCHANGE: u32 = 6;

/// Wire code for the `Stopped` state.
pub const SERVICE_STOPPED: u32 = 1;

/// Wire code for the `StartPending` state.
pub const SERVICE_START_PENDING: u32 = 2;

/// Wire code for the `StopPending` state.
pub const SERVICE_STOP_PENDING: u32 = 3;

/// Wire code for the `Running` state.
pub const SERVICE_RUNNING: u32 = 4;

/// Wire code for the `PausePending` state.
pub const SERVICE_PAUSE_PENDING: u32 = 6;

/// Wire code for the `Paused` state.
pub const SERVICE_PAUSED: u32 = 7;

/// Capability bit: the host may send `Stop`.
pub const ACCEPT_STOP: u32 = 1;

/// Capability bit: the host may send `Pause`.
pub const ACCEPT_PAUSE: u32 = 2;

/// Capability bit: the host may send `Continue`.
pub const ACCEPT_CONTINUE: u32 = 4;

/// A decoded control request from the host.
#[derive(Clone, Copy, PartialEq, Eq, Structural, Debug)]
pub enum ServiceEvent {
    Interrogate,
    ParamChange,
    Pause,
    Continue,
    Stop,
}

/// What a raw control code decodes to; codes outside the table are the
/// unrecognized case and decode to `None`.
pub open spec fn spec_event_from_raw(control: u32) -> Option<ServiceEvent> {
    if control == SERVICE_CONTROL_INTERROGATE {
        Some(ServiceEvent::Interrogate)
    } else if control == SERVICE_CONTROL_PARAMCHANGE {
        Some(ServiceEvent::ParamChange)
    } else if control == SERVICE_CONTROL_PAUSE {
        Some(ServiceEvent::Pause)
    } else if control == SERVICE_CONTROL_CONTINUE {
        Some(ServiceEvent::Continue)
    } else if control == SERVICE_CONTROL_STOP {
        Some(ServiceEvent::Stop)
    } else {
        None
    }
}

impl ServiceEvent {
    /// Decode a raw control code delivered by the host.
    pub fn from_raw(control: u32) -> (r: Option<ServiceEvent>)
        ensures
            r == spec_event_from_raw(control),
    {
        if control == SERVICE_CONTROL_INTERROGATE {
            Some(ServiceEvent::Interrogate)
        } else if control == SERVICE_CONTROL_PARAMCHANGE {
            Some(ServiceEvent::ParamChange)
        } else if control == SERVICE_CONTROL_PAUSE {
            Some(ServiceEvent::Pause)
        } else if control == SERVICE_CONTROL_CONTINUE {
            Some(ServiceEvent::Continue)
        } else if control == SERVICE_CONTROL_STOP {
            Some(ServiceEvent::Stop)
        } else {
            None
        }
    }
}

/// The acknowledgement code owed to the host for a recognized control code,
/// given the handler's outcome: success maps to `NO_ERROR`, failure to the
/// handler's numeric error code — except `Interrogate`, which always
/// acknowledges success, since its purpose is merely to request a status
/// resend.
pub open spec fn spec_acknowledgement(control: u32, outcome: Result<(), Error>) -> u32 {
    if control == SERVICE_CONTROL_INTERROGATE {
        NO_ERROR
    } else {
        match outcome {
            Ok(()) => NO_ERROR,
            Err(e) => e.code,
        }
    }
}

/// Translate a handler's outcome for a recognized control code into the
/// host's acknowledgement code.
pub fn acknowledgement(control: u32, outcome: Result<(), Error>) -> (code: u32)
    ensures
        code == spec_acknowledgement(control, outcome),
{
    let code = match outcome {
        Ok(()) => NO_ERROR,
        Err(e) => e.code,
    };
    if control != SERVICE_CONTROL_INTERROGATE {
        code
    } else {
        NO_ERROR
    }
}

/// The state a status report places the service in, as seen by the host.
#[derive(Clone, Copy, PartialEq, Eq, Structural, Debug)]
pub enum ServiceState {
    StartPending,
    Running,
    PausePending,
    Paused,
    StopPending,
    Stopped,
}

impl ServiceState {
    /// A pending state is transitional and bounded by the wait hint; the host
    /// expects periodic checkpoint increments while the service is in one.
    pub open spec fn spec_is_pending(self) -> bool {
        self is StartPending || self is PausePending || self is StopPending
    }

    /// Whether this state is a pending (transitional) one.
    pub fn is_pending(self) -> (r: bool)
        ensures
            r == self.spec_is_pending(),
    {
        match self {
            ServiceState::StartPending => true,
            ServiceState::PausePending => true,
            ServiceState::StopPending => true,
            _ => false,
        }
    }

    /// The wire code for this state in the host's status record.
    pub fn to_raw(self) -> (r: u32)
        ensures
            r == SERVICE_STOPPED <==> self is Stopped,
            r == SERVICE_START_PENDING <==> self is StartPending,
            r == SERVICE_STOP_PENDING <==> self is StopPending,
            r == SERVICE_RUNNING <==> self is Running,
            r == SERVICE_PAUSE_PENDING <==> self is PausePending,
            r == SERVICE_PAUSED <==> self is Paused,
    {
        match self {
            ServiceState::Stopped => SERVICE_STOPPED,
            ServiceState::StartPending => SERVICE_START_PENDING,
            ServiceState::StopPending => SERVICE_STOP_PENDING,
            ServiceState::Running => SERVICE_RUNNING,
            ServiceState::PausePending => SERVICE_PAUSE_PENDING,
            ServiceState::Paused => SERVICE_PAUSED,
        }
    }
}

/// The capability set the host is told it may invoke for a given state:
/// `{Stop, Continue}` while paused, `{Stop, Pause}` while running, nothing
/// in a pending or stopped state. It is fully determined by the state and is
/// never set independently.
pub open spec fn spec_controls_for(state: ServiceState) -> u32 {
    match state {
        ServiceState::Paused => ACCEPT_STOP | ACCEPT_CONTINUE,
        ServiceState::Running => ACCEPT_STOP | ACCEPT_PAUSE,
        _ => 0,
    }
}

/// The status record sent to the host. Transition operations update the
/// record atomically to the target semantics and return the exact record to
/// transmit; the transmission itself is the caller's to perform.
#[derive(Clone, Copy, PartialEq, Eq, Structural, Debug)]
pub struct ServiceStatus {
    /// The state this report places the service in.
    pub current_state: ServiceState,
    /// Capability bits advertised to the host, always `spec_controls_for`
    /// of the current state.
    pub controls_accepted: u32,
    /// Monotonic counter proving forward progress during a pending state.
    pub checkpoint: u32,
    /// How long, in milliseconds, the host should wait before treating the
    /// current pending transition as failed.
    pub wait_hint: u32,
    /// Exit code reported to the host.
    pub exit_code: u32,
    /// Service-specific exit code reported to the host.
    pub service_exit_code: u32,
}

impl ServiceStatus {
    /// The record is well formed: the advertised capability set is exactly
    /// the one its state assigns.
    pub open spec fn wf(self) -> bool {
        self.controls_accepted == spec_controls_for(self.current_state)
    }
}

/// The record after a `starting` (or repeated still-starting) report:
/// Start-Pending, no controls accepted, checkpoint advanced, the given hint.
pub open spec fn spec_starting(s: ServiceStatus, wait_hint: u32) -> ServiceStatus {
    ServiceStatus {
        current_state: ServiceState::StartPending,
        controls_accepted: 0,
        checkpoint: (s.checkpoint + 1) as u32,
        wait_hint,
        ..s
    }
}

/// The record after a `pausing` report: Pause-Pending, no controls accepted,
/// checkpoint advanced, the given hint.
pub open spec fn spec_pausing(s: ServiceStatus, wait_hint: u32) -> ServiceStatus {
    ServiceStatus {
        current_state: ServiceState::PausePending,
        controls_accepted: 0,
        checkpoint: (s.checkpoint + 1) as u32,
        wait_hint,
        ..s
    }
}

/// The record after a `paused` report: Paused, `{Stop, Continue}` accepted,
/// checkpoint advanced.
pub open spec fn spec_paused(s: ServiceStatus) -> ServiceStatus {
    ServiceStatus {
        current_state: ServiceState::Paused,
        controls_accepted: ACCEPT_STOP | ACCEPT_CONTINUE,
        checkpoint: (s.checkpoint + 1) as u32,
        ..s
    }
}

/// The record after a `running` report: Running, `{Stop, Pause}` accepted,
/// checkpoint reset.
pub open spec fn spec_running(s: ServiceStatus) -> ServiceStatus {
    ServiceStatus {
        current_state: ServiceState::Running,
        controls_accepted: ACCEPT_STOP | ACCEPT_PAUSE,
        checkpoint: 0,
        ..s
    }
}

/// The record after a `stopping` report: Stop-Pending, no controls accepted,
/// checkpoint advanced, the given hint.
pub open spec fn spec_stopping(s: ServiceStatus, wait_hint: u32) -> ServiceStatus {
    ServiceStatus {
        current_state: ServiceState::StopPending,
        controls_accepted: 0,
        checkpoint: (s.checkpoint + 1) as u32,
        wait_hint,
        ..s
    }
}

/// The record after the terminal `stopped` report: Stopped, no controls
/// accepted, checkpoint left as it was.
pub open spec fn spec_stopped(s: ServiceStatus) -> ServiceStatus {
    ServiceStatus { current_state: ServiceState::Stopped, controls_accepted: 0, ..s }
}

impl ServiceStatus {
    /// The record as first published when the control handler is registered:
    /// Start-Pending with a one-second hint and no controls accepted.
    pub fn new() -> (r: ServiceStatus)
        ensures
            r.current_state is StartPending,
            r.controls_accepted == 0,
            r.checkpoint == 0,
            r.wait_hint == 1000,
            r.exit_code == 0,
            r.service_exit_code == 0,
            r.wf(),
    {
        ServiceStatus {
            current_state: ServiceState::StartPending,
            controls_accepted: 0,
            checkpoint: 0,
            wait_hint: 1000,
            exit_code: 0,
            service_exit_code: 0,
        }
    }

    /// The raw send primitive: the record exactly as it must be handed to the
    /// host for transmission.
    pub fn send(&self) -> (r: ServiceStatus)
        ensures
            r == *self,
    {
        *self
    }

    /// Report that startup is in progress (also the repeated still-starting
    /// report): Start-Pending, checkpoint advanced, the given wait hint.
    pub fn starting(&mut self, wait_hint: u32) -> (sent: ServiceStatus)
        requires
            old(self).current_state !is Stopped,
            old(self).checkpoint < u32::MAX,
        ensures
            *final(self) == spec_starting(*old(self), wait_hint),
            sent == *final(self),
            final(self).wf(),
    {
        self.current_state = ServiceState::StartPending;
        self.controls_accepted = 0;
        self.checkpoint = self.checkpoint + 1;
        self.wait_hint = wait_hint;
        self.send()
    }

    /// Report that a pause is in progress: Pause-Pending, checkpoint
    /// advanced, the given wait hint.
    pub fn pausing(&mut self, wait_hint: u32) -> (sent: ServiceStatus)
        requires
            old(self).current_state !is Stopped,
            old(self).checkpoint < u32::MAX,
        ensures
            *final(self) == spec_pausing(*old(self), wait_hint),
            sent == *final(self),
            final(self).wf(),
    {
        self.current_state = ServiceState::PausePending;
        self.controls_accepted = 0;
        self.checkpoint = self.checkpoint + 1;
        self.wait_hint = wait_hint;
        self.send()
    }

    /// Report that the service is paused: `{Stop, Continue}` accepted.
    pub fn paused(&mut self) -> (sent: ServiceStatus)
        requires
            old(self).current_state !is Stopped,
            old(self).checkpoint < u32::MAX,
        ensures
            *final(self) == spec_paused(*old(self)),
            sent == *final(self),
            final(self).wf(),
    {
        self.current_state = ServiceState::Paused;
        self.controls_accepted = ACCEPT_STOP | ACCEPT_CONTINUE;
        self.checkpoint = self.checkpoint + 1;
        self.send()
    }

    /// Report that the service is running: `{Stop, Pause}` accepted and the
    /// checkpoint reset. This is the only path to the Running status.
    pub fn running(&mut self) -> (sent: ServiceStatus)
        requires
            old(self).current_state !is Stopped,
        ensures
            *final(self) == spec_running(*old(self)),
            sent == *final(self),
            final(self).wf(),
    {
        self.current_state = ServiceState::Running;
        self.controls_accepted = ACCEPT_STOP | ACCEPT_PAUSE;
        self.checkpoint = 0;
        self.send()
    }

    /// Report that a stop is in progress: Stop-Pending, checkpoint advanced,
    /// the given wait hint.
    pub fn stopping(&mut self, wait_hint: u32) -> (sent: ServiceStatus)
        requires
            old(self).current_state !is Stopped,
            old(self).checkpoint < u32::MAX,
        ensures
            *final(self) == spec_stopping(*old(self), wait_hint),
            sent == *final(self),
            final(self).wf(),
    {
        self.current_state = ServiceState::StopPending;
        self.controls_accepted = 0;
        self.checkpoint = self.checkpoint + 1;
        self.wait_hint = wait_hint;
        self.send()
    }

    /// The terminal report: Stopped with no controls accepted. No further
    /// report may be made for this registration afterward.
    pub fn stopped(&mut self) -> (sent: ServiceStatus)
        requires
            old(self).current_state !is Stopped,
        ensures
            *final(self) == spec_stopped(*old(self)),
            sent == *final(self),
            final(self).wf(),
    {
        self.current_state = ServiceState::Stopped;
        self.controls_accepted = 0;
        self.send()
    }
}

/// After any settled (non-pending) report made by a well-formed reporter,
/// the advertised capability set equals exactly the table's entry for that
/// state — never a superset or subset.
pub proof fn lemma_settled_controls_exact(s: ServiceStatus)
    requires
        s.wf(),
        !s.current_state.spec_is_pending(),
    ensures
        s.current_state is Running ==> s.controls_accepted == (ACCEPT_STOP | ACCEPT_PAUSE),
        s.current_state is Paused ==> s.controls_accepted == (ACCEPT_STOP | ACCEPT_CONTINUE),
        s.current_state is Stopped ==> s.controls_accepted == 0,
{
}

} // verus!
