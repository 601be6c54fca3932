//! Service lifecycle adapter: bridges the host service manager's control
//! events to the supervisor's shutdown signal, and mirrors the loop's
//! phases into the coarse status the manager sees.
//!
//! Stop and Shutdown both set the single-fire signal, idempotently; every
//! other control event is acknowledged as not implemented rather than
//! failing. The manager only ever sees StartPending, Running or Stopped,
//! with a zero exit indicator on a graceful stop and a nonzero one on a
//! fatal failure, so it never observes the supervisor stuck in between.

use crate::SupervisorError;
use vstd::prelude::*;

verus! {

/// The coarse status reported to the host service manager.
#[derive(Clone, Copy, Debug, PartialEq, Eq, Structural)]
pub enum ServiceStatus {
    StartPending,
    Running,
    Stopped,
}

/// A control event from the host service manager, with every event other
/// than Stop and Shutdown folded into `Other`.
#[derive(Clone, Copy, Debug, PartialEq, Eq, Structural)]
pub enum ControlEvent {
    Stop,
    Shutdown,
    Other,
}

/// The acknowledgement returned to the manager for one control event.
#[derive(Clone, Copy, Debug, PartialEq, Eq, Structural)]
pub enum HandlerResult {
    NoError,
    NotImplemented,
}

/// The adapter's state: the status last reported to the manager, and
/// whether the shutdown signal has been fired.
pub struct LifecycleAdapter {
    pub status: ServiceStatus,
    pub signal_sent: bool,
}

/// Stop and shutdown controls are accepted only while the service
/// reports Running.
pub fn accepts_stop(status: ServiceStatus) -> (b: bool)
    ensures
        b == (status is Running),
{
    match status {
        ServiceStatus::Running => true,
        _ => false,
    }
}

impl LifecycleAdapter {
    /// A fresh adapter: the service is start-pending and no signal has
    /// fired.
    pub fn new() -> (a: LifecycleAdapter)
        ensures
            a.status is StartPending,
            !a.signal_sent,
    {
        LifecycleAdapter { status: ServiceStatus::StartPending, signal_sent: false }
    }

    /// Answers one control event. Stop and Shutdown fire the signal —
    /// exactly once in effect, since firing it again changes nothing —
    /// and are acknowledged; anything else is answered as not
    /// implemented and leaves the adapter untouched. The reported status
    /// never changes here.
    pub fn on_control_event(&mut self, event: ControlEvent) -> (r: HandlerResult)
        ensures
            final(self).status == old(self).status,
            old(self).signal_sent ==> final(self).signal_sent,
            (event is Stop || event is Shutdown) ==> final(self).signal_sent && r is NoError,
            !(event is Stop || event is Shutdown) ==> *final(self) == *old(self)
                && r is NotImplemented,
    {
        match event {
            ControlEvent::Stop | ControlEvent::Shutdown => {
                self.signal_sent = true;
                HandlerResult::NoError
            },
            ControlEvent::Other => HandlerResult::NotImplemented,
        }
    }

    /// Reports the steady state, reached only from start-pending once at
    /// least one worker runs.
    pub fn report_running(&mut self)
        requires
            old(self).status is StartPending,
        ensures
            final(self).status is Running,
            final(self).signal_sent == old(self).signal_sent,
    {
        self.status = ServiceStatus::Running;
    }

    /// Reports the terminal status, from any phase, so the manager never
    /// sees the supervisor stuck in between: a zero exit indicator
    /// exactly when the outcome was graceful, and a nonzero one on a
    /// fatal failure.
    pub fn report_stopped(&mut self, outcome: Result<(), SupervisorError>) -> (code: u32)
        ensures
            final(self).status is Stopped,
            final(self).signal_sent == old(self).signal_sent,
            outcome is Ok ==> code == 0,
            outcome is Err ==> code == 1,
    {
        self.status = ServiceStatus::Stopped;
        match outcome {
            Ok(()) => 0,
            Err(_) => 1,
        }
    }
}

} // verus!
