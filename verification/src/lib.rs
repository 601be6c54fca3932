//! Supervision of a set of independently configured external worker
//! processes: discovering which workers should run, sanitizing their
//! output, detecting unexpected termination, applying a bounded restart
//! policy per worker, and tearing everything down on a stop signal.
//!
//! The library holds the decision logic with its contracts; process
//! creation, the host service manager and the log sink live outside it
//! and drive it with plain values.

use vstd::prelude::*;

pub mod discovery;
pub mod lifecycle;
pub mod sanitize;
pub mod supervisor;
pub mod worker;

verus! {

/// The failure kinds of the supervisor.
///
/// `MissingExecutable`, `MissingConfig` and `LaunchFailure` are fatal to a
/// single worker's start attempt only; `NoWorkersAvailable` is fatal to the
/// whole supervisor; `RestartBudgetExhausted` abandons one worker;
/// `StopFailure` is best-effort and never blocks stopping the rest.
#[derive(Clone, Copy, Debug, PartialEq, Eq, Structural)]
pub enum SupervisorError {
    MissingExecutable,
    MissingConfig,
    LaunchFailure,
    NoWorkersAvailable,
    RestartBudgetExhausted,
    StopFailure,
}

impl SupervisorError {
    /// True for the one error that must take the whole service down.
    pub fn is_fatal_to_service(&self) -> (r: bool)
        ensures
            r == (*self is NoWorkersAvailable),
    {
        match self {
            SupervisorError::NoWorkersAvailable => true,
            _ => false,
        }
    }

    /// The words the log sink records for this error.
    pub fn describe(&self) -> (r: String)
        ensures
            *self is MissingExecutable ==> r@ == "executable file not found"@,
            *self is MissingConfig ==> r@ == "configuration file not found"@,
            *self is LaunchFailure ==> r@ == "failed to launch worker process"@,
            *self is NoWorkersAvailable ==> r@ == "no workers available to supervise"@,
            *self is RestartBudgetExhausted ==> r@ == "restart budget exhausted"@,
            *self is StopFailure ==> r@ == "failed to stop worker process"@,
    {
        match self {
            SupervisorError::MissingExecutable => String::from_str("executable file not found"),
            SupervisorError::MissingConfig => String::from_str("configuration file not found"),
            SupervisorError::LaunchFailure => String::from_str("failed to launch worker process"),
            SupervisorError::NoWorkersAvailable => String::from_str(
                "no workers available to supervise",
            ),
            SupervisorError::RestartBudgetExhausted => String::from_str(
                "restart budget exhausted",
            ),
            SupervisorError::StopFailure => String::from_str("failed to stop worker process"),
        }
    }
}

} // verus!
