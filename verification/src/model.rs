//! A model of a whole run: the controller state together with the items
//! still queued, the workers in each stage of their single-shot life, and
//! the worker reports that are in flight on the control channel.
//!
//! The transition relation below covers everything that can happen in a
//! run: a worker claims an item or meets the empty queue, a worker
//! finishes executing, and the controller processes one control event.
//! The lemmas prove the scheduler's laws over every interleaving: no item
//! is duplicated or lost, shrinking never touches in-flight work, growing
//! adds one live worker at once, a stopped pool stays stopped, and the
//! completion count climbs monotonically up to the item total.

use vstd::prelude::*;

use crate::pool::ControlEvent;
use crate::pool::PoolModel;
use crate::pool::event_feasible;
use crate::pool::init_model;
use crate::pool::inv;
use crate::pool::notifies;
use crate::pool::pool_after;
use crate::pool::spawns;

verus! {

/// One instant of a run.
pub ghost struct SysState {
    /// The controller's state.
    pub pool: PoolModel,
    /// Items still in the work queue.
    pub queued: nat,
    /// Workers spawned that have not yet touched the queue.
    pub idle: nat,
    /// Workers that claimed an item and are executing it.
    pub holding: nat,
    /// `WorkerFinishedJob` reports sent but not yet processed.
    pub done_events: nat,
    /// `WorkerFoundQueueEmpty` reports sent but not yet processed.
    pub empty_events: nat,
}

/// The start of a run: the queue holds every item, the initial workers
/// are spawned and idle, and no report is in flight.
pub open spec fn sys_init(total: nat, parallelism: nat) -> SysState {
    SysState {
        pool: init_model(parallelism, total),
        queued: total,
        idle: parallelism,
        holding: 0,
        done_events: 0,
        empty_events: 0,
    }
}

/// The inductive invariant of a run.  Every item is in exactly one place:
/// still queued, being executed, reported done but unprocessed, or
/// counted as completed.  The controller's live count equals the workers
/// it has not yet seen exit.  An empty-queue report can only exist once
/// the queue is empty, and the queue never refills.
pub open spec fn sys_inv(s: SysState) -> bool {
    &&& inv(s.pool)
    &&& s.pool.completed + s.holding + s.done_events + s.queued == s.pool.total
    &&& s.pool.live == s.idle + s.holding + s.done_events + s.empty_events
    &&& s.empty_events > 0 ==> s.queued == 0
}

/// An idle worker pops the head item and starts executing it.
pub open spec fn step_claim_item(s: SysState, s2: SysState) -> bool {
    &&& s.idle >= 1
    &&& s.queued >= 1
    &&& s2 == (SysState {
        idle: (s.idle - 1) as nat,
        holding: s.holding + 1,
        queued: (s.queued - 1) as nat,
        ..s
    })
}

/// An idle worker meets the empty queue and sends its one report.
pub open spec fn step_find_empty(s: SysState, s2: SysState) -> bool {
    &&& s.idle >= 1
    &&& s.queued == 0
    &&& s2 == (SysState { idle: (s.idle - 1) as nat, empty_events: s.empty_events + 1, ..s })
}

/// A worker's executor call returns — however the command itself fared —
/// and the worker sends its one report.
pub open spec fn step_finish_job(s: SysState, s2: SysState) -> bool {
    &&& s.holding >= 1
    &&& s2 == (SysState { holding: (s.holding - 1) as nat, done_events: s.done_events + 1, ..s })
}

/// How many workers the controller spawns for this event: one or none.
pub open spec fn spawn_count(m: PoolModel, e: ControlEvent) -> nat {
    if spawns(m, e) {
        1
    } else {
        0
    }
}

/// The controller processes one control event.  A worker report must be
/// in flight to be processed; an external request may arrive at any time.
/// A freshly spawned worker starts idle.
pub open spec fn step_ctrl(s: SysState, s2: SysState, e: ControlEvent) -> bool {
    &&& match e {
        ControlEvent::WorkerFinishedJob => {
            &&& s.done_events >= 1
            &&& s2.done_events == s.done_events - 1
            &&& s2.empty_events == s.empty_events
        },
        ControlEvent::WorkerFoundQueueEmpty => {
            &&& s.empty_events >= 1
            &&& s2.empty_events == s.empty_events - 1
            &&& s2.done_events == s.done_events
        },
        _ => {
            &&& s2.done_events == s.done_events
            &&& s2.empty_events == s.empty_events
        },
    }
    &&& s2.pool == pool_after(s.pool, e)
    &&& s2.idle == s.idle + spawn_count(s.pool, e)
    &&& s2.holding == s.holding
    &&& s2.queued == s.queued
}

/// Anything that can happen in one step of a run.
pub open spec fn sys_next(s: SysState, s2: SysState) -> bool {
    ||| step_claim_item(s, s2)
    ||| step_find_empty(s, s2)
    ||| step_finish_job(s, s2)
    ||| exists|e: ControlEvent| step_ctrl(s, s2, e)
}

/// The initial state of any run satisfies the invariant.
pub proof fn lemma_init(total: nat, parallelism: nat)
    ensures
        sys_inv(sys_init(total, parallelism)),
{
}

/// In a run, a worker report in flight guarantees the preconditions the
/// controller's transition assumes of it: its worker is still counted
/// live, and a finished job means an item was still outstanding.
pub proof fn lemma_inflight_event_feasible(s: SysState, e: ControlEvent)
    requires
        sys_inv(s),
        e is WorkerFinishedJob ==> s.done_events >= 1,
        e is WorkerFoundQueueEmpty ==> s.empty_events >= 1,
    ensures
        event_feasible(s.pool, e),
{
}

/// Every step of a run preserves the invariant.
pub proof fn lemma_next_preserves_inv(s: SysState, s2: SysState)
    requires
        sys_inv(s),
        sys_next(s, s2),
    ensures
        sys_inv(s2),
{
    if exists|e: ControlEvent| step_ctrl(s, s2, e) {
        let e = choose|e: ControlEvent| step_ctrl(s, s2, e);
        lemma_inflight_event_feasible(s, e);
    }
}

/// No duplication, no loss.  In a stopped pool no worker is left in any
/// stage and no report is in flight, so every one of the `total` items
/// was popped by exactly one worker and is either counted as completed or
/// still sits unpopped in the queue (the latter only when the pool was
/// stopped by an external stop request).
pub proof fn lemma_stopped_accounts_for_every_item(s: SysState)
    requires
        sys_inv(s),
        s.pool.phase is Stopped,
    ensures
        s.idle == 0,
        s.holding == 0,
        s.done_events == 0,
        s.empty_events == 0,
        s.pool.completed + s.queued == s.pool.total,
{
}

/// No loss on a natural drain.  When the pool stops because a worker
/// found the queue empty — rather than by an external stop request — the
/// queue is empty and the completion count has reached the item total.
pub proof fn lemma_drained_means_all_completed(s: SysState, s2: SysState)
    requires
        sys_inv(s),
        step_ctrl(s, s2, ControlEvent::WorkerFoundQueueEmpty),
        s2.pool.phase is Stopped,
    ensures
        s2.queued == 0,
        s2.pool.completed == s2.pool.total,
{
    lemma_inflight_event_feasible(s, ControlEvent::WorkerFoundQueueEmpty);
    lemma_next_preserves_inv(s, s2);
    lemma_stopped_accounts_for_every_item(s2);
}

/// A shrink request never kills in-flight work: it leaves every worker —
/// idle or executing — and the queue untouched, spawns nothing, and only
/// queues one more shrink to be honored later (unless parallelism is
/// already due to shrink to zero, in which case it is ignored).
pub proof fn lemma_shrink_never_kills(s: SysState, s2: SysState)
    requires
        sys_inv(s),
        step_ctrl(s, s2, ControlEvent::ExternalShrinkRequest),
    ensures
        s2.holding == s.holding,
        s2.idle == s.idle,
        s2.queued == s.queued,
        s2.pool.live == s.pool.live,
        !spawns(s.pool, ControlEvent::ExternalShrinkRequest),
        s.pool.phase is Running && s.pool.pending < s.pool.desired ==> s2.pool.pending == s.pool.pending + 1,
{
}

/// A pending shrink is honored at the next natural completion: the
/// finished worker is not replaced, and one pending shrink is consumed.
/// K queued shrinks therefore suppress exactly the next K respawns.
pub proof fn lemma_pending_shrink_suppresses_respawn(m: PoolModel)
    requires
        inv(m),
        m.phase is Running,
        m.pending > 0,
    ensures
        !spawns(m, ControlEvent::WorkerFinishedJob),
        pool_after(m, ControlEvent::WorkerFinishedJob).pending == m.pending - 1,
        pool_after(m, ControlEvent::WorkerFinishedJob).live == m.live - 1,
{
}

/// Grow is immediate: in a running pool a grow request raises the live
/// worker count by exactly one within the very event-loop iteration that
/// processes it, whatever the state of the queue (the transition does not
/// look at it).  The same holds for a worker-relayed grow wish.
pub proof fn lemma_grow_is_immediate(s: SysState, s2: SysState, e: ControlEvent)
    requires
        sys_inv(s),
        e is ExternalGrowRequest || e is WorkerWantsGrow,
        step_ctrl(s, s2, e),
        s.pool.phase is Running,
    ensures
        spawns(s.pool, e),
        s2.pool.live == s.pool.live + 1,
        s2.idle == s.idle + 1,
        s2.holding == s.holding,
        s2.queued == s.queued,
{
}

/// The drain is idempotent, first half: processing the report of the last
/// live worker that found the queue empty puts the pool into `Stopped`.
pub proof fn lemma_last_empty_report_stops(s: SysState, s2: SysState)
    requires
        sys_inv(s),
        step_ctrl(s, s2, ControlEvent::WorkerFoundQueueEmpty),
        s.pool.live == 1,
    ensures
        s2.pool.phase is Stopped,
{
}

/// The drain is idempotent, second half: `Stopped` is terminal.  A
/// stopped pool ignores every stray late event — its state is unchanged,
/// nothing is spawned, and the progress sink is not notified.
pub proof fn lemma_stopped_is_final(m: PoolModel, e: ControlEvent)
    requires
        m.phase is Stopped,
    ensures
        pool_after(m, e) == m,
        !spawns(m, e),
        !notifies(m, e),
{
}

/// Progress is monotonic: no step of a run ever lowers the completion
/// count, the item total never changes, and the completion count never
/// exceeds it.
pub proof fn lemma_progress_monotonic(s: SysState, s2: SysState)
    requires
        sys_inv(s),
        sys_next(s, s2),
    ensures
        s.pool.completed <= s2.pool.completed,
        s2.pool.total == s.pool.total,
        s2.pool.completed <= s2.pool.total,
{
    lemma_next_preserves_inv(s, s2);
}

} // verus!
