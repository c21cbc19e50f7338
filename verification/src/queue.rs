//! The work queue: a thread-safe, unbounded FIFO of pending command
//! strings, backed by `concurrent_queue::ConcurrentQueue`.
//!
//! The queue is created unbounded and this module never closes it, so a
//! push always succeeds and a pop fails only when the queue is empty.
//! Each item is delivered to exactly one popper: the backing queue removes
//! the head atomically, which the sequence model below reflects.

use vstd::prelude::*;

verus! {

#[verifier::external_type_specification]
#[verifier::external_body]
#[verifier::reject_recursive_types(T)]
pub struct ExConcurrentQueue<T>(concurrent_queue::ConcurrentQueue<T>);

/// The items held by a backing queue, head first.
pub uninterp spec fn cq_items(q: concurrent_queue::ConcurrentQueue<String>) -> Seq<Seq<char>>;

/// A thread-safe, unbounded FIFO of pending work items.  Its view is the
/// sequence of queued command strings, head first.
pub struct WorkQueue {
    inner: concurrent_queue::ConcurrentQueue<String>,
}

impl View for WorkQueue {
    type V = Seq<Seq<char>>;

    closed spec fn view(&self) -> Seq<Seq<char>> {
        cq_items(self.inner)
    }
}

impl WorkQueue {
    /// Relies on `ConcurrentQueue::unbounded`: a new unbounded queue holds
    /// no items.
    #[verifier::external_body]
    fn unbounded_raw() -> (q: WorkQueue)
        ensures
            cq_items(q.inner) == Seq::<Seq<char>>::empty(),
    {
        WorkQueue { inner: concurrent_queue::ConcurrentQueue::unbounded() }
    }

    /// Relies on `ConcurrentQueue::push`: on an unbounded queue that was
    /// never closed it always returns `Ok` and appends the item at the
    /// tail.  This module never closes the queue, so the failure arm is
    /// unreachable.
    #[verifier::external_body]
    fn push_raw(&mut self, item: String)
        ensures
            cq_items(final(self).inner) == cq_items(old(self).inner).push(item@),
    {
        self.inner.push(item).unwrap();
    }

    /// Relies on `ConcurrentQueue::pop`: on a never-closed queue it removes
    /// and returns the head item, or reports `Empty` without blocking.
    #[verifier::external_body]
    fn pop_raw(&mut self) -> (r: Option<String>)
        ensures
            cq_items(old(self).inner).len() == 0 ==> r is None && cq_items(
                final(self).inner,
            ) == cq_items(old(self).inner),
            cq_items(old(self).inner).len() > 0 ==> (match r {
                Some(item) => item@ == cq_items(old(self).inner)[0] && cq_items(
                    final(self).inner,
                ) == cq_items(old(self).inner).skip(1),
                None => false,
            }),
    {
        match self.inner.pop() {
            Ok(item) => Some(item),
            Err(_) => None,
        }
    }

    /// Relies on `ConcurrentQueue::len`: it returns the number of items
    /// currently in the queue.
    #[verifier::external_body]
    fn len_raw(&self) -> (n: usize)
        ensures
            n as nat == cq_items(self.inner).len(),
    {
        self.inner.len()
    }

    /// Creates an empty queue.
    pub fn new() -> (q: WorkQueue)
        ensures
            q@ == Seq::<Seq<char>>::empty(),
    {
        WorkQueue::unbounded_raw()
    }

    /// Appends one work item at the tail.  Never fails: the queue is
    /// unbounded.
    pub fn push(&mut self, item: String)
        ensures
            final(self)@ == old(self)@.push(item@),
    {
        self.push_raw(item);
    }

    /// Removes and returns the head item, or `None` if the queue is empty.
    /// Never blocks, and each queued item is returned to exactly one
    /// caller.
    pub fn try_pop(&mut self) -> (r: Option<String>)
        ensures
            old(self)@.len() == 0 ==> r is None && final(self)@ == old(self)@,
            old(self)@.len() > 0 ==> (match r {
                Some(item) => item@ == old(self)@[0] && final(self)@ == old(self)@.skip(1),
                None => false,
            }),
    {
        self.pop_raw()
    }

    /// The number of items currently queued.
    pub fn len(&self) -> (n: usize)
        ensures
            n as nat == self@.len(),
    {
        self.len_raw()
    }
}

} // verus!
