use vstd::prelude::*;
use vstd::rwlock::{RwLock, RwLockPredicate};
use std::sync::Arc;
use crate::signal::{Signal, signal_wf, queue_wf, enqueue_signal, dequeue_signal};

verus! {

/// The invariant the shared queue's lock maintains: every queued signal is
/// well-formed, so a receiver may run whatever task it is handed.
pub struct QueueInv;

impl<F: FnOnce()> RwLockPredicate<Vec<Signal<F>>> for QueueInv {
    open spec fn inv(self, q: Vec<Signal<F>>) -> bool {
        queue_wf(q@)
    }
}

/// One handle to the shared handoff queue.
///
/// The queue is a first-in first-out vector behind an exclusive lock. All
/// handles obtained by [`Channel::fork`] refer to the same queue: the pool
/// sends through one handle while every worker receives through its own,
/// and the lock serializes their accesses, so each queued signal is
/// delivered to at most one receiver.
pub struct Channel<F: FnOnce()> {
    queue: Arc<RwLock<Vec<Signal<F>>, QueueInv>>,
}

/// Relies on std's `Arc::clone`: the returned handle refers to the same
/// allocation as the argument, here the same lock-protected queue.
#[verifier::external_body]
fn clone_queue_handle<F: FnOnce()>(a: &Arc<RwLock<Vec<Signal<F>>, QueueInv>>) -> (r: Arc<
    RwLock<Vec<Signal<F>>, QueueInv>,
>)
    ensures
        r == *a,
{
    Arc::clone(a)
}

impl<F: FnOnce()> Channel<F> {
    /// Two handles to the same queue: a signal sent through one can be
    /// received through the other.
    pub closed spec fn shares_queue_with(&self, other: &Channel<F>) -> bool {
        self.queue == other.queue
    }

    /// Create a fresh, empty queue and return its first handle.
    pub fn new() -> (c: Channel<F>) {
        let q: Vec<Signal<F>> = Vec::new();
        let lock = RwLock::new(q, Ghost(QueueInv));
        Channel { queue: Arc::new(lock) }
    }

    /// Hand out another handle to the same queue; any number of senders and
    /// receivers may hold one.
    pub fn fork(&self) -> (c: Channel<F>)
        ensures
            c.shares_queue_with(self),
    {
        Channel { queue: clone_queue_handle(&self.queue) }
    }

    /// Enqueue one signal at the back of the shared queue.
    ///
    /// The sender never waits for a receiver: the queue is unbounded, so
    /// the call returns as soon as the signal is stored.
    pub fn send(&self, s: Signal<F>)
        requires
            signal_wf(s),
    {
        let (mut q, handle) = self.queue.acquire_write();
        enqueue_signal(&mut q, s);
        handle.release_write(q);
    }

    /// Every handle shares its own queue.
    pub proof fn lemma_shares_queue_refl(a: &Channel<F>)
        ensures
            a.shares_queue_with(a),
    {
    }

    /// Sharing a queue is transitive: every handle forked, directly or
    /// through other handles, from one queue refers to that queue.
    pub proof fn lemma_shares_queue_trans(a: &Channel<F>, b: &Channel<F>, c: &Channel<F>)
        requires
            a.shares_queue_with(b),
            b.shares_queue_with(c),
        ensures
            a.shares_queue_with(c),
    {
    }

    /// Dequeue the oldest queued signal, or report the queue empty.
    ///
    /// Dequeues are serialized by the queue's lock, so each signal is
    /// delivered to exactly one caller, and a delivered task is always
    /// well-formed and may be run.
    pub fn try_recv(&self) -> (r: Option<Signal<F>>)
        ensures
            r matches Some(s) ==> signal_wf(s),
    {
        let (mut q, handle) = self.queue.acquire_write();
        let r = dequeue_signal(&mut q);
        handle.release_write(q);
        r
    }
}

} // verus!
