//! The pool controller: a single-threaded state machine that owns the
//! parallelism bookkeeping and reacts to one `ControlEvent` at a time.
//!
//! Grow requests take effect immediately (one extra worker is spawned at
//! once); shrink requests are honored lazily, at the next natural worker
//! exit, so no in-flight job is ever aborted.

use vstd::prelude::*;

verus! {

/// One ordered message to the controller: a worker lifecycle report or an
/// external resize/stop directive.
#[derive(Clone, Copy, Debug, PartialEq, Eq, Structural)]
pub enum ControlEvent {
    /// A worker relayed an asynchronous wish for more capacity.
    WorkerWantsGrow,
    /// A worker finished executing one work item and exited.
    WorkerFinishedJob,
    /// A worker found the queue empty and exited without side effects.
    WorkerFoundQueueEmpty,
    /// An external request to lower parallelism by one.
    ExternalShrinkRequest,
    /// An external request to raise parallelism by one.
    ExternalGrowRequest,
    /// An external request to stop spawning any further workers.
    ExternalStopAcceptingNewWorkers,
}

/// The controller's lifecycle phase.
#[derive(Clone, Copy, Debug, PartialEq, Eq, Structural)]
pub enum PoolPhase {
    /// Accepting events; may spawn workers.
    Running,
    /// No new workers will be spawned; waiting for live workers to report.
    Draining,
    /// Terminal: no live workers remain and nothing will be spawned.
    Stopped,
}

/// What the embedding program must do after one controller step.
#[derive(Clone, Copy, Debug, PartialEq, Eq, Structural)]
pub struct Action {
    /// Spawn exactly one new worker.
    pub spawn_worker: bool,
    /// Forward the new completion count to the progress sink.
    pub notify_progress: bool,
}

/// The mathematical state of the controller.
pub ghost struct PoolModel {
    /// Current lifecycle phase.
    pub phase: PoolPhase,
    /// Target count of concurrently live workers.
    pub desired: nat,
    /// Shrink requests not yet honored.
    pub pending: nat,
    /// Workers spawned whose exit event has not yet been processed.
    pub live: nat,
    /// Work items completed so far.
    pub completed: nat,
    /// Work items enqueued at startup; never adjusted afterwards.
    pub total: nat,
}

/// The controller's internal invariant.
pub open spec fn inv(m: PoolModel) -> bool {
    &&& m.pending <= m.desired
    &&& m.phase is Running ==> m.live == m.desired
    &&& m.phase is Stopped ==> m.live == 0
    &&& m.completed <= m.total
}

/// The state a freshly created pool starts in.
pub open spec fn init_model(parallelism: nat, total: nat) -> PoolModel {
    PoolModel {
        phase: PoolPhase::Running,
        desired: parallelism,
        pending: 0,
        live: parallelism,
        completed: 0,
        total: total,
    }
}

/// What each event assumes of the state it meets: worker events can only
/// arrive while a worker is live, and a finished job implies an item was
/// still outstanding.  A run whose events all come from real workers
/// satisfies this (see the `model` module); stray events in `Stopped` are
/// unconstrained because they are ignored.
pub open spec fn event_feasible(m: PoolModel, e: ControlEvent) -> bool {
    &&& (e is WorkerFinishedJob || e is WorkerFoundQueueEmpty) && !(m.phase is Stopped)
        ==> m.live >= 1
    &&& e is WorkerFinishedJob && !(m.phase is Stopped) ==> m.completed < m.total
}

/// `event_feasible`, plus the machine limit that a grow must not overflow
/// the word that counts workers.
pub open spec fn event_ok(m: PoolModel, e: ControlEvent) -> bool {
    &&& event_feasible(m, e)
    &&& (e is WorkerWantsGrow || e is ExternalGrowRequest) && m.phase is Running
        ==> m.desired < usize::MAX
}

/// The controller's transition function: the state after processing `e`.
///
/// In `Running`: grow events raise `desired` and `live` together; a shrink
/// is queued in `pending` (ignored once `pending == desired`); a finished
/// job either honors one pending shrink (no replacement) or is replaced
/// one-for-one; a queue-empty report retires its worker without a
/// replacement — spawning one would only meet the same empty queue — and
/// stops the pool when the last worker retires.  In `Draining` nothing is
/// spawned and the pool stops once every worker has reported.  `Stopped`
/// is terminal: every event is ignored.
pub open spec fn pool_after(m: PoolModel, e: ControlEvent) -> PoolModel {
    if m.phase is Stopped {
        m
    } else {
        match e {
            ControlEvent::WorkerWantsGrow | ControlEvent::ExternalGrowRequest => {
                if m.phase is Running {
                    PoolModel { desired: m.desired + 1, live: m.live + 1, ..m }
                } else {
                    m
                }
            },
            ControlEvent::ExternalShrinkRequest => {
                if m.phase is Running && m.pending < m.desired {
                    PoolModel { pending: m.pending + 1, ..m }
                } else {
                    m
                }
            },
            ControlEvent::WorkerFinishedJob => {
                if m.phase is Running {
                    if m.pending > 0 {
                        PoolModel {
                            completed: m.completed + 1,
                            pending: (m.pending - 1) as nat,
                            desired: (m.desired - 1) as nat,
                            live: (m.live - 1) as nat,
                            ..m
                        }
                    } else {
                        PoolModel { completed: m.completed + 1, ..m }
                    }
                } else {
                    PoolModel {
                        completed: m.completed + 1,
                        live: (m.live - 1) as nat,
                        phase: if m.live == 1 { PoolPhase::Stopped } else { PoolPhase::Draining },
                        ..m
                    }
                }
            },
            ControlEvent::WorkerFoundQueueEmpty => {
                if m.phase is Running {
                    PoolModel {
                        desired: (m.desired - 1) as nat,
                        pending: if m.pending > 0 { (m.pending - 1) as nat } else { 0 },
                        live: (m.live - 1) as nat,
                        phase: if m.live == 1 { PoolPhase::Stopped } else { PoolPhase::Running },
                        ..m
                    }
                } else {
                    PoolModel {
                        live: (m.live - 1) as nat,
                        phase: if m.live == 1 { PoolPhase::Stopped } else { PoolPhase::Draining },
                        ..m
                    }
                }
            },
            ControlEvent::ExternalStopAcceptingNewWorkers => {
                PoolModel {
                    phase: if m.live == 0 { PoolPhase::Stopped } else { PoolPhase::Draining },
                    ..m
                }
            },
        }
    }
}

/// Whether processing `e` in state `m` spawns one new worker.
pub open spec fn spawns(m: PoolModel, e: ControlEvent) -> bool {
    m.phase is Running && match e {
        ControlEvent::WorkerWantsGrow | ControlEvent::ExternalGrowRequest => true,
        ControlEvent::WorkerFinishedJob => m.pending == 0,
        _ => false,
    }
}

/// Whether processing `e` in state `m` reports a new completion count to
/// the progress sink.  Only finished jobs are reported, never queue-empty
/// exits, and nothing is reported once the pool has stopped.
pub open spec fn notifies(m: PoolModel, e: ControlEvent) -> bool {
    !(m.phase is Stopped) && e is WorkerFinishedJob
}

/// The pool controller.  All fields are mutated only by `handle_event`,
/// one event at a time; workers communicate with it solely through events.
pub struct Pool {
    phase: PoolPhase,
    desired: usize,
    pending: usize,
    live: usize,
    completed: usize,
    total: usize,
}

impl View for Pool {
    type V = PoolModel;

    closed spec fn view(&self) -> PoolModel {
        PoolModel {
            phase: self.phase,
            desired: self.desired as nat,
            pending: self.pending as nat,
            live: self.live as nat,
            completed: self.completed as nat,
            total: self.total as nat,
        }
    }
}

impl Pool {
    /// The controller's invariant, established by `new` and preserved by
    /// `handle_event`.
    pub open spec fn wf(&self) -> bool {
        inv(self@)
    }

    /// Creates a controller in `Running`, with `parallelism` workers
    /// considered live (the caller spawns exactly that many) and `total`
    /// items to account for.
    pub fn new(parallelism: usize, total: usize) -> (p: Pool)
        requires
            parallelism >= 1,
        ensures
            p@ == init_model(parallelism as nat, total as nat),
            p.wf(),
    {
        Pool {
            phase: PoolPhase::Running,
            desired: parallelism,
            pending: 0,
            live: parallelism,
            completed: 0,
            total: total,
        }
    }

    /// The controller's current lifecycle phase.
    pub fn phase(&self) -> (r: PoolPhase)
        ensures
            r == self@.phase,
    {
        self.phase
    }

    /// Whether the pool has reached its terminal state.
    pub fn is_stopped(&self) -> (r: bool)
        ensures
            r == (self@.phase is Stopped),
    {
        self.phase == PoolPhase::Stopped
    }

    /// The current target count of concurrently live workers.
    pub fn desired_parallelism(&self) -> (r: usize)
        ensures
            r as nat == self@.desired,
    {
        self.desired
    }

    /// Shrink requests queued but not yet honored.
    pub fn pending_shrinks(&self) -> (r: usize)
        ensures
            r as nat == self@.pending,
    {
        self.pending
    }

    /// Workers spawned whose exit event has not yet been processed.
    pub fn live_workers(&self) -> (r: usize)
        ensures
            r as nat == self@.live,
    {
        self.live
    }

    /// Work items completed so far.
    pub fn completed(&self) -> (r: usize)
        ensures
            r as nat == self@.completed,
    {
        self.completed
    }

    /// The item total fixed at pool creation.
    pub fn total(&self) -> (r: usize)
        ensures
            r as nat == self@.total,
    {
        self.total
    }

    /// Processes exactly one control event and says what to do next.
    pub fn handle_event(&mut self, e: ControlEvent) -> (a: Action)
        requires
            old(self).wf(),
            event_ok(old(self)@, e),
        ensures
            final(self).wf(),
            final(self)@ == pool_after(old(self)@, e),
            a.spawn_worker == spawns(old(self)@, e),
            a.notify_progress == notifies(old(self)@, e),
    {
        if self.phase == PoolPhase::Stopped {
            return Action { spawn_worker: false, notify_progress: false };
        }
        match e {
            ControlEvent::WorkerWantsGrow | ControlEvent::ExternalGrowRequest => {
                if self.phase == PoolPhase::Running {
                    self.desired = self.desired + 1;
                    self.live = self.live + 1;
                    Action { spawn_worker: true, notify_progress: false }
                } else {
                    Action { spawn_worker: false, notify_progress: false }
                }
            },
            ControlEvent::ExternalShrinkRequest => {
                if self.phase == PoolPhase::Running && self.pending < self.desired {
                    self.pending = self.pending + 1;
                }
                Action { spawn_worker: false, notify_progress: false }
            },
            ControlEvent::WorkerFinishedJob => {
                self.completed = self.completed + 1;
                if self.phase == PoolPhase::Running {
                    if self.pending > 0 {
                        self.pending = self.pending - 1;
                        self.desired = self.desired - 1;
                        self.live = self.live - 1;
                        Action { spawn_worker: false, notify_progress: true }
                    } else {
                        Action { spawn_worker: true, notify_progress: true }
                    }
                } else {
                    self.live = self.live - 1;
                    if self.live == 0 {
                        self.phase = PoolPhase::Stopped;
                    }
                    Action { spawn_worker: false, notify_progress: true }
                }
            },
            ControlEvent::WorkerFoundQueueEmpty => {
                if self.phase == PoolPhase::Running {
                    self.desired = self.desired - 1;
                    if self.pending > 0 {
                        self.pending = self.pending - 1;
                    }
                }
                self.live = self.live - 1;
                if self.live == 0 {
                    self.phase = PoolPhase::Stopped;
                }
                Action { spawn_worker: false, notify_progress: false }
            },
            ControlEvent::ExternalStopAcceptingNewWorkers => {
                if self.live == 0 {
                    self.phase = PoolPhase::Stopped;
                } else {
                    self.phase = PoolPhase::Draining;
                }
                Action { spawn_worker: false, notify_progress: false }
            },
        }
    }
}

} // verus!
