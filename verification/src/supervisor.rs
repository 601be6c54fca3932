//! Supervisor loop: owns the collection of worker entries, applies the
//! bounded restart policy, and answers the shutdown signal.
//!
//! The loop is a state machine over {Initializing, Running, Stopping,
//! Stopped}. Each polling tick first checks the shutdown signal, so a
//! pending shutdown is never delayed by restart work, and only then
//! walks the workers. A detected exit charges that worker's restart
//! counter by exactly one; the worker is abandoned exactly when the
//! counter exceeds the restart budget, and abandoning one worker never
//! touches another. The driver of the loop performs the process work and
//! hands every outcome back as a plain value.

use crate::worker::{PollEvent, PollStatus, WorkerHandle};
use crate::SupervisorError;
use vstd::prelude::*;

verus! {

/// The supervisor loop's phase.
#[derive(Clone, Copy, Debug, PartialEq, Eq, Structural)]
pub enum LoopState {
    Initializing,
    Running,
    Stopping,
    Stopped,
}

/// One worker's slot: its handle, its consumed restart attempts, and
/// whether its budget is exhausted. Counters never reset while the
/// service instance runs.
pub struct WorkerEntry {
    pub handle: WorkerHandle,
    pub restarts: u32,
    pub abandoned: bool,
}

/// What a tick opens with: tear everything down, or poll the workers.
#[derive(Clone, Copy, Debug, PartialEq, Eq, Structural)]
pub enum TickDirective {
    EnterStopping,
    PollWorkers,
}

/// What the driver must do for one worker after its poll was taken in.
#[derive(Clone, Copy, Debug, PartialEq, Eq, Structural)]
pub enum WorkerDirective {
    Continue,
    AttemptRestart,
    Abandoned,
}

impl WorkerDirective {
    /// The per-worker terminal condition to log for this directive:
    /// abandonment is exactly the exhaustion of the restart budget.
    pub fn terminal_error(&self) -> (r: Option<SupervisorError>)
        ensures
            *self is Abandoned ==> r == Some(SupervisorError::RestartBudgetExhausted),
            !(*self is Abandoned) ==> r is None,
    {
        match self {
            WorkerDirective::Abandoned => Some(SupervisorError::RestartBudgetExhausted),
            _ => None,
        }
    }
}

/// The supervisor: loop phase, worker slots, restart budget, and the
/// single-fire shutdown signal as last observed.
pub struct Supervisor {
    pub state: LoopState,
    pub workers: Vec<WorkerEntry>,
    pub max_restarts: u32,
    pub shutdown: bool,
}

/// All slots but slot `i` are exactly as they were.
pub open spec fn unchanged_except(pre: Seq<WorkerEntry>, post: Seq<WorkerEntry>, i: int) -> bool {
    post.len() == pre.len() && forall|j: int| 0 <= j < pre.len() && j != i ==> post[j] == pre[j]
}

impl Supervisor {
    /// The supervisor's invariant: every counter is within one step of
    /// the budget, a slot is abandoned exactly when its counter has
    /// passed the budget, an abandoned slot holds no live process, and
    /// before the loop starts every slot is fresh.
    pub open spec fn wf(self) -> bool {
        &&& self.max_restarts < u32::MAX
        &&& forall|i: int|
            0 <= i < self.workers@.len() ==> {
                let e = #[trigger] self.workers@[i];
                &&& e.restarts <= self.max_restarts + 1
                &&& (e.abandoned <==> e.restarts > self.max_restarts)
                &&& (e.abandoned ==> !e.handle.live)
            }
        &&& (self.state is Initializing ==> forall|i: int|
            0 <= i < self.workers@.len() ==> (#[trigger] self.workers@[i]).restarts == 0
                && self.workers@[i].handle.live && !self.workers@[i].abandoned)
    }

    /// A fresh supervisor with the given restart budget, before any
    /// launch.
    pub fn new(max_restarts: u32) -> (s: Supervisor)
        requires
            max_restarts < u32::MAX,
        ensures
            s.wf(),
            s.state is Initializing,
            s.workers@.len() == 0,
            s.max_restarts == max_restarts,
            !s.shutdown,
    {
        Supervisor {
            state: LoopState::Initializing,
            workers: Vec::new(),
            max_restarts,
            shutdown: false,
        }
    }

    /// Takes in one successfully launched worker during initialization.
    pub fn record_launch(&mut self, handle: WorkerHandle)
        requires
            old(self).wf(),
            old(self).state is Initializing,
            handle.live,
        ensures
            final(self).wf(),
            final(self).state is Initializing,
            final(self).max_restarts == old(self).max_restarts,
            final(self).shutdown == old(self).shutdown,
            final(self).workers@ == old(self).workers@.push(
                (WorkerEntry { handle, restarts: 0u32, abandoned: false }),
            ),
    {
        self.workers.push(WorkerEntry { handle, restarts: 0, abandoned: false });
    }

    /// Closes initialization: with nothing launched the loop fails fast
    /// to Stopped with `NoWorkersAvailable` — it never reports running
    /// with nothing supervised — and otherwise enters Running.
    pub fn finish_init(&mut self) -> (r: Result<(), SupervisorError>)
        requires
            old(self).wf(),
            old(self).state is Initializing,
        ensures
            final(self).wf(),
            final(self).workers == old(self).workers,
            final(self).max_restarts == old(self).max_restarts,
            final(self).shutdown == old(self).shutdown,
            old(self).workers@.len() == 0 ==> final(self).state is Stopped && r == Err::<
                (),
                SupervisorError,
            >(SupervisorError::NoWorkersAvailable),
            old(self).workers@.len() > 0 ==> final(self).state is Running && r == Ok::<
                (),
                SupervisorError,
            >(()),
    {
        if self.workers.len() == 0 {
            self.state = LoopState::Stopped;
            Err(SupervisorError::NoWorkersAvailable)
        } else {
            self.state = LoopState::Running;
            Ok(())
        }
    }

    /// Sets the shutdown signal. Single-fire and idempotent: once set it
    /// is never unset, and setting it again has no further effect; no
    /// phase or slot changes here, only the signal.
    pub fn signal_shutdown(&mut self)
        ensures
            final(self).shutdown,
            final(self).state == old(self).state,
            final(self).workers == old(self).workers,
            final(self).max_restarts == old(self).max_restarts,
            old(self).wf() ==> final(self).wf(),
    {
        self.shutdown = true;
    }

    /// Opens one polling tick. The shutdown check comes before any
    /// liveness work: a set signal sends the loop to Stopping on this
    /// very tick, whatever restart work might be pending.
    pub fn begin_tick(&mut self) -> (r: TickDirective)
        requires
            old(self).wf(),
            old(self).state is Running,
        ensures
            final(self).wf(),
            final(self).workers == old(self).workers,
            final(self).max_restarts == old(self).max_restarts,
            final(self).shutdown == old(self).shutdown,
            old(self).shutdown ==> final(self).state is Stopping && r is EnterStopping,
            !old(self).shutdown ==> final(self).state is Running && r is PollWorkers,
    {
        if self.shutdown {
            self.state = LoopState::Stopping;
            TickDirective::EnterStopping
        } else {
            TickDirective::PollWorkers
        }
    }

    /// Takes in what the poll of worker `i` reported. A live report
    /// changes nothing. A detected exit charges the counter by exactly
    /// one and decides the worker's fate: abandoned exactly when the new
    /// count exceeds the budget, otherwise a restart is to be attempted.
    /// No other slot is touched.
    pub fn observe_worker(&mut self, i: usize, event: PollEvent) -> (d: WorkerDirective)
        requires
            old(self).wf(),
            old(self).state is Running,
            i < old(self).workers@.len(),
            !old(self).workers@[i as int].abandoned,
            !old(self).workers@[i as int].handle.live ==> !(event is StillAlive),
        ensures
            final(self).wf(),
            final(self).state is Running,
            final(self).max_restarts == old(self).max_restarts,
            final(self).shutdown == old(self).shutdown,
            unchanged_except(old(self).workers@, final(self).workers@, i as int),
            final(self).workers@[i as int].handle.params == old(self).workers@[i as int].handle.params,
            event is StillAlive ==> d is Continue
                && final(self).workers@[i as int] == old(self).workers@[i as int],
            !(event is StillAlive)
                ==> final(self).workers@[i as int].restarts
                == old(self).workers@[i as int].restarts + 1,
            !(event is StillAlive) ==> !final(self).workers@[i as int].handle.live,
            !(event is StillAlive) ==> (d is Abandoned <==> old(self).workers@[i as int].restarts
                + 1 > old(self).max_restarts),
            !(event is StillAlive)
                ==> (d is Abandoned <==> final(self).workers@[i as int].abandoned),
            !(event is StillAlive) && !(d is Abandoned) ==> d is AttemptRestart,
    {
        let was_live = self.workers[i].handle.live;
        if was_live {
            let params = self.workers[i].handle.params.duplicate();
            let mut h = WorkerHandle { params, live: true };
            let st = h.poll(event);
            match st {
                PollStatus::StillRunning => WorkerDirective::Continue,
                PollStatus::Exited(_code) => {
                    let r = self.workers[i].restarts;
                    let charged = r + 1;
                    let out_of_budget = charged > self.max_restarts;
                    let entry = WorkerEntry {
                        handle: WorkerHandle { params: h.params, live: false },
                        restarts: charged,
                        abandoned: out_of_budget,
                    };
                    self.workers.set(i, entry);
                    if out_of_budget {
                        WorkerDirective::Abandoned
                    } else {
                        WorkerDirective::AttemptRestart
                    }
                },
            }
        } else {
            let params = self.workers[i].handle.params.duplicate();
            let r = self.workers[i].restarts;
            let charged = r + 1;
            let out_of_budget = charged > self.max_restarts;
            let entry = WorkerEntry {
                handle: WorkerHandle { params, live: false },
                restarts: charged,
                abandoned: out_of_budget,
            };
            self.workers.set(i, entry);
            if out_of_budget {
                WorkerDirective::Abandoned
            } else {
                WorkerDirective::AttemptRestart
            }
        }
    }

    /// Takes in a restart attempt's outcome for worker `i`: on success a
    /// fresh live handle with the same launch parameters replaces the
    /// exited one in place; on failure the slot stays down, to be charged
    /// against the same budget on a future detection. The attempt itself
    /// consumes no extra budget, and no other slot is touched.
    pub fn record_restart(&mut self, i: usize, spawn_ok: bool)
        requires
            old(self).wf(),
            old(self).state is Running,
            i < old(self).workers@.len(),
            !old(self).workers@[i as int].abandoned,
            !old(self).workers@[i as int].handle.live,
        ensures
            final(self).wf(),
            final(self).state is Running,
            final(self).max_restarts == old(self).max_restarts,
            final(self).shutdown == old(self).shutdown,
            unchanged_except(old(self).workers@, final(self).workers@, i as int),
            final(self).workers@[i as int].handle.params == old(self).workers@[i as int].handle.params,
            final(self).workers@[i as int].restarts == old(self).workers@[i as int].restarts,
            !final(self).workers@[i as int].abandoned,
            final(self).workers@[i as int].handle.live == spawn_ok,
    {
        let params = self.workers[i].handle.params.duplicate();
        let r = self.workers[i].restarts;
        let entry = WorkerEntry {
            handle: WorkerHandle { params, live: spawn_ok },
            restarts: r,
            abandoned: false,
        };
        self.workers.set(i, entry);
    }

    /// Takes in the forced stop of worker `i` during teardown. The slot's
    /// process is gone whatever the kill reported, so one stop failure
    /// never blocks stopping the rest; counters and abandonment stay as
    /// they were.
    pub fn stop_worker(&mut self, i: usize, kill_ok: bool) -> (r: Result<(), SupervisorError>)
        requires
            old(self).wf(),
            old(self).state is Stopping,
            i < old(self).workers@.len(),
        ensures
            final(self).wf(),
            final(self).state is Stopping,
            final(self).max_restarts == old(self).max_restarts,
            final(self).shutdown == old(self).shutdown,
            unchanged_except(old(self).workers@, final(self).workers@, i as int),
            final(self).workers@[i as int].handle.params == old(self).workers@[i as int].handle.params,
            final(self).workers@[i as int].restarts == old(self).workers@[i as int].restarts,
            final(self).workers@[i as int].abandoned == old(self).workers@[i as int].abandoned,
            !final(self).workers@[i as int].handle.live,
            kill_ok ==> r == Ok::<(), SupervisorError>(()),
            !kill_ok ==> r == Err::<(), SupervisorError>(SupervisorError::StopFailure),
    {
        let params = self.workers[i].handle.params.duplicate();
        let was_live = self.workers[i].handle.live;
        let r = self.workers[i].restarts;
        let a = self.workers[i].abandoned;
        let mut h = WorkerHandle { params, live: was_live };
        let res = h.stop(kill_ok);
        let entry = WorkerEntry { handle: h, restarts: r, abandoned: a };
        self.workers.set(i, entry);
        res
    }

    /// Closes the teardown once every slot's process is gone: the loop
    /// reports its terminal phase.
    pub fn finish_stop(&mut self)
        requires
            old(self).wf(),
            old(self).state is Stopping,
            forall|j: int|
                0 <= j < old(self).workers@.len()
                    ==> !(#[trigger] old(self).workers@[j]).handle.live,
        ensures
            final(self).wf(),
            final(self).state is Stopped,
            final(self).workers == old(self).workers,
            final(self).max_restarts == old(self).max_restarts,
            final(self).shutdown == old(self).shutdown,
    {
        self.state = LoopState::Stopped;
    }
}

} // verus!
