use vstd::prelude::*;

verus! {

/// A message on the handoff queue: either one task to run, or an order to
/// stop the worker that receives it.
///
/// Carrying the stop order on the same queue as the tasks orders it after
/// every task that was already enqueued, so no separate out-of-band stop
/// mechanism is needed.
pub enum Signal<F> {
    /// Run the carried task to completion, then go back to the queue.
    Dispatch(F),
    /// Leave the worker loop; the signal is consumed by exactly one worker.
    Stop,
}

/// A signal may be handed to whichever worker dequeues it, so a dispatched
/// task must be callable: its precondition has to hold when it is submitted.
pub open spec fn signal_wf<F: FnOnce()>(s: Signal<F>) -> bool {
    match s {
        Signal::Dispatch(f) => call_requires(f, ()),
        Signal::Stop => true,
    }
}

/// Every signal sitting in the queue is well-formed; this is the invariant
/// the shared queue maintains between senders and receivers.
pub open spec fn queue_wf<F: FnOnce()>(q: Seq<Signal<F>>) -> bool {
    forall|i: int| 0 <= i < q.len() ==> signal_wf(#[trigger] q[i])
}

/// What one dequeue delivers: the oldest queued signal, if any.
pub open spec fn front_of<F>(q: Seq<Signal<F>>) -> Option<Signal<F>> {
    if q.len() == 0 {
        None
    } else {
        Some(q[0])
    }
}

/// What one dequeue leaves behind: everything but the delivered signal.
pub open spec fn after_dequeue<F>(q: Seq<Signal<F>>) -> Seq<Signal<F>> {
    if q.len() == 0 {
        q
    } else {
        q.drop_first()
    }
}

/// Enqueue one signal at the back of the queue.
pub fn enqueue_signal<F: FnOnce()>(q: &mut Vec<Signal<F>>, s: Signal<F>)
    ensures
        final(q)@ == old(q)@.push(s),
{
    q.push(s);
}

/// Dequeue the oldest signal, if any; the queue is first-in first-out.
pub fn dequeue_signal<F: FnOnce()>(q: &mut Vec<Signal<F>>) -> (r: Option<Signal<F>>)
    ensures
        r == front_of(old(q)@),
        final(q)@ == after_dequeue(old(q)@),
{
    if q.len() == 0 {
        None
    } else {
        let s = q.remove(0);
        proof {
            assert(old(q)@.remove(0) =~= old(q)@.drop_first());
        }
        Some(s)
    }
}

/// The sequence of signals that repeated dequeues deliver, oldest first,
/// until the queue is empty.
pub open spec fn deliveries<F>(q: Seq<Signal<F>>) -> Seq<Signal<F>>
    decreases q.len(),
{
    match front_of(q) {
        None => Seq::empty(),
        Some(s) => seq![s] + deliveries(after_dequeue(q)),
    }
}

/// Draining the queue delivers every queued signal exactly once and in the
/// order it was enqueued: the handoff neither drops nor duplicates a task.
pub proof fn lemma_drain_delivers_each_once<F>(q: Seq<Signal<F>>)
    ensures
        deliveries(q) == q,
    decreases q.len(),
{
    if q.len() == 0 {
        assert(deliveries(q) =~= q);
    } else {
        lemma_drain_delivers_each_once(q.drop_first());
        assert(deliveries(q) =~= q);
    }
}

/// Out of a well-formed queue, every delivered signal is itself
/// well-formed: no receiver is ever handed a task whose precondition does
/// not hold.
pub proof fn lemma_deliveries_wf<F: FnOnce()>(q: Seq<Signal<F>>)
    requires
        queue_wf(q),
    ensures
        forall|i: int| 0 <= i < deliveries(q).len() ==> signal_wf(#[trigger] deliveries(q)[i]),
{
    lemma_drain_delivers_each_once(q);
}

/// Enqueueing puts a signal behind every signal already queued: draining
/// then delivers the old queue's signals first, in their old order, and
/// the new signal last. Submission order survives the handoff.
pub proof fn lemma_enqueue_preserves_order<F>(q: Seq<Signal<F>>, s: Signal<F>)
    ensures
        deliveries(q.push(s)) == deliveries(q).push(s),
{
    lemma_drain_delivers_each_once(q.push(s));
    lemma_drain_delivers_each_once(q);
    assert(deliveries(q.push(s)) =~= deliveries(q).push(s));
}

/// A dequeue hands out only the front signal and removes exactly that one
/// occurrence of it: the signals left behind are the later ones, each in
/// its old order, so no later dequeue can deliver the same queued signal
/// again.
pub proof fn lemma_dequeue_single_delivery<F>(q: Seq<Signal<F>>)
    requires
        q.len() >= 1,
    ensures
        front_of(q) == Some(q[0]),
        after_dequeue(q).len() == q.len() - 1,
        forall|i: int| 0 <= i < q.len() - 1 ==> #[trigger] after_dequeue(q)[i] == q[i + 1],
        after_dequeue(q).to_multiset() == q.to_multiset().remove(q[0]),
{
    broadcast use vstd::seq_lib::group_to_multiset_ensures;

    assert(q.remove(0) =~= q.drop_first());
    assert(q.drop_first().to_multiset() =~= q.to_multiset().remove(q[0]));
}

} // verus!
