//! The worker lifecycle: a worker is single-shot.  It claims at most one
//! item from the queue, has the host executor run it, and reports exactly
//! one event before exiting.  Continuous throughput comes from the
//! controller spawning a fresh worker per completion, not from looping
//! here, which keeps runtime resizing a pure spawn-or-don't decision.

use vstd::prelude::*;

use crate::pool::ControlEvent;
use crate::queue::WorkQueue;

verus! {

/// Claims one work item for a worker: pops the head of the queue, or
/// reports that the queue is empty.  Each item is claimed by exactly one
/// worker.
pub fn claim_work(q: &mut WorkQueue) -> (r: Option<String>)
    ensures
        old(q)@.len() == 0 ==> r is None && final(q)@ == old(q)@,
        old(q)@.len() > 0 ==> (match r {
            Some(item) => item@ == old(q)@[0] && final(q)@ == old(q)@.skip(1),
            None => false,
        }),
{
    q.try_pop()
}

/// The one event a worker emits when it exits.  A worker that claimed an
/// item reports `WorkerFinishedJob` once the executor call has returned,
/// whatever the executed command's own outcome was — the scheduler never
/// inspects success or failure.  A worker that found the queue empty
/// reports `WorkerFoundQueueEmpty` and has had no side effects.
pub fn exit_event(claimed_item: bool) -> (e: ControlEvent)
    ensures
        claimed_item ==> e == ControlEvent::WorkerFinishedJob,
        !claimed_item ==> e == ControlEvent::WorkerFoundQueueEmpty,
{
    if claimed_item {
        ControlEvent::WorkerFinishedJob
    } else {
        ControlEvent::WorkerFoundQueueEmpty
    }
}

} // verus!
