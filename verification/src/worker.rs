//! Worker handle: the control thread's model of one supervised process.
//!
//! The handle owns the worker's identity and launch parameters, retained
//! so the same process can be relaunched identically, and tracks whether
//! a live process is attached. Process creation, polling and killing are
//! performed outside the library; their outcomes are handed in as plain
//! values and the handle records what each outcome means.

use crate::discovery::WorkerSpec;
use crate::SupervisorError;
use vstd::prelude::*;

verus! {

/// What the operating system reported when the worker's process was
/// polled: still alive, or exited with the given status code.
#[derive(Clone, Copy, Debug, PartialEq, Eq, Structural)]
pub enum PollEvent {
    StillAlive,
    ExitObserved(i32),
}

/// What a poll of the handle reports to the supervisor.
#[derive(Clone, Copy, Debug, PartialEq, Eq, Structural)]
pub enum PollStatus {
    StillRunning,
    Exited(i32),
}

/// One worker's handle: its launch parameters and whether a live process
/// is currently attached. At most one live process per handle, by
/// construction: a handle is born live and only `poll` or `stop` retire
/// it; only a restart makes a fresh live handle.
pub struct WorkerHandle {
    pub params: WorkerSpec,
    pub live: bool,
}

/// Decides a launch attempt's precondition: both the executable and its
/// configuration artifact must exist, and each absence is its own error,
/// checked in that order.
pub fn validate_launch(exe_exists: bool, config_exists: bool) -> (r: Result<
    (),
    SupervisorError,
>)
    ensures
        !exe_exists ==> r == Err::<(), SupervisorError>(SupervisorError::MissingExecutable),
        exe_exists && !config_exists ==> r == Err::<(), SupervisorError>(
            SupervisorError::MissingConfig,
        ),
        exe_exists && config_exists ==> r == Ok::<(), SupervisorError>(()),
{
    if !exe_exists {
        Err(SupervisorError::MissingExecutable)
    } else if !config_exists {
        Err(SupervisorError::MissingConfig)
    } else {
        Ok(())
    }
}

impl WorkerHandle {
    /// Decides what a spawn attempt produced: a live handle retaining the
    /// launch parameters when process creation succeeded, and
    /// `LaunchFailure` when it did not.
    pub fn after_spawn(params: WorkerSpec, spawn_ok: bool) -> (r: Result<
        WorkerHandle,
        SupervisorError,
    >)
        ensures
            spawn_ok ==> (r matches Ok(h) && h.params == params && h.live),
            !spawn_ok ==> r == Err::<WorkerHandle, SupervisorError>(SupervisorError::LaunchFailure),
    {
        if spawn_ok {
            Ok(WorkerHandle { params, live: true })
        } else {
            Err(SupervisorError::LaunchFailure)
        }
    }

    /// Non-blocking liveness check. While the process has not exited the
    /// handle always reports `StillRunning` and stays live — never a
    /// false exit. Once an exit is observed the handle is retired, and
    /// must not be polled or stopped again without a fresh start.
    pub fn poll(&mut self, event: PollEvent) -> (r: PollStatus)
        requires
            old(self).live,
        ensures
            final(self).params == old(self).params,
            event is StillAlive ==> r is StillRunning && final(self).live,
            event matches PollEvent::ExitObserved(c) ==> r == PollStatus::Exited(c)
                && !final(self).live,
    {
        match event {
            PollEvent::StillAlive => PollStatus::StillRunning,
            PollEvent::ExitObserved(code) => {
                self.live = false;
                PollStatus::Exited(code)
            },
        }
    }

    /// Records a forced termination. The handle is retired whatever the
    /// kill reported, so that one worker's stop failure never blocks
    /// stopping the rest; a failure is surfaced as `StopFailure` only.
    pub fn stop(&mut self, kill_ok: bool) -> (r: Result<(), SupervisorError>)
        ensures
            final(self).params == old(self).params,
            !final(self).live,
            kill_ok ==> r == Ok::<(), SupervisorError>(()),
            !kill_ok ==> r == Err::<(), SupervisorError>(SupervisorError::StopFailure),
    {
        self.live = false;
        if kill_ok {
            Ok(())
        } else {
            Err(SupervisorError::StopFailure)
        }
    }
}

} // verus!
