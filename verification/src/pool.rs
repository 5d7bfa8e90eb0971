use vstd::prelude::*;
use crate::channel::Channel;
use crate::signal::{Signal, signal_wf};

verus! {

/// What one scheduling step of a worker did.
#[derive(Clone, Copy, Debug, PartialEq, Eq, Structural)]
pub enum Step {
    /// A dispatched task was run to completion.
    Ran,
    /// The queue was empty; nothing was done.
    Idle,
    /// A stop signal was consumed; the worker's loop must end.
    Stopped,
}

/// Why a pool could not be constructed.
#[derive(Clone, Copy, Debug, PartialEq, Eq, Structural)]
pub enum PoolError {
    /// A pool must have at least one worker.
    ZeroWorkers,
}

/// The outcome a worker owes for one received signal: an empty poll leaves
/// it idle, a stop signal stops it, and a dispatched task is run to
/// completion, so the task's postcondition holds afterwards.
pub open spec fn outcome_of<F: FnOnce()>(s: Option<Signal<F>>, r: Step) -> bool {
    match s {
        None => r == Step::Idle,
        Some(Signal::Stop) => r == Step::Stopped,
        Some(Signal::Dispatch(f)) => r == Step::Ran && call_ensures(f, (), ()),
    }
}

/// One worker: an integer identity, stable for the worker's lifetime, and
/// a receiving handle on the pool's shared queue.
///
/// The worker holds no thread of its own: the embedding program runs each
/// worker on one thread by calling [`Worker::step`] in a loop until it
/// returns [`Step::Stopped`].
pub struct Worker<F: FnOnce()> {
    id: usize,
    receiver: Channel<F>,
}

impl<F: FnOnce()> Worker<F> {
    /// The identity the worker was constructed with.
    pub closed spec fn worker_id(&self) -> usize {
        self.id
    }

    /// The worker dequeues its signals from the queue behind `c`.
    pub closed spec fn receives_from(&self, c: &Channel<F>) -> bool {
        self.receiver.shares_queue_with(c)
    }

    /// Create a worker that will take its signals from `receiver`'s queue.
    pub fn new(id: usize, receiver: Channel<F>) -> (w: Worker<F>)
        ensures
            w.worker_id() == id,
            w.receives_from(&receiver),
    {
        proof {
            Channel::lemma_shares_queue_refl(&receiver);
        }
        Worker { id, receiver }
    }

    /// The worker's identity.
    pub fn id(&self) -> (r: usize)
        ensures
            r == self.worker_id(),
    {
        self.id
    }

    /// Act on one received signal: run a dispatched task to completion,
    /// stop on a stop signal, do nothing on an empty poll.
    pub fn act(s: Option<Signal<F>>) -> (r: Step)
        requires
            s matches Some(sig) ==> signal_wf(sig),
        ensures
            outcome_of(s, r),
    {
        match s {
            None => Step::Idle,
            Some(Signal::Stop) => Step::Stopped,
            Some(Signal::Dispatch(f)) => {
                f();
                Step::Ran
            },
        }
    }

    /// One scheduling step: poll the shared queue once and act on what was
    /// delivered.
    ///
    /// Which signal arrives depends on the other workers racing for the
    /// queue's lock, but every outcome is accounted for: the step reports
    /// idleness, a consumed stop signal, or a task run to completion. A
    /// task that hangs keeps only this worker busy, and a task that panics
    /// ends only the thread running this worker; the queue itself is left
    /// consistent either way.
    pub fn step(&self) -> (r: Step)
        ensures
            exists|s: Option<Signal<F>>| outcome_of(s, r),
    {
        let got = self.receiver.try_recv();
        let ghost s = got;
        let r = Self::act(got);
        proof {
            assert(outcome_of(s, r));
        }
        r
    }
}

/// A fixed-size worker pool.
///
/// The pool owns the sending end of a shared first-in first-out queue and
/// the workers that will drain it. Submitting a task enqueues it; each
/// queued task is later run by exactly one worker. Stopping the pool
/// enqueues one stop signal per worker, ordered after every task already
/// submitted, so a worker only stops once the earlier tasks it picks up
/// have been run.
pub struct ThreadPool<F: FnOnce()> {
    sender: Channel<F>,
    workers: Vec<Worker<F>>,
    size: usize,
}

impl<F: FnOnce()> ThreadPool<F> {
    /// The number of workers the pool was created with.
    pub closed spec fn worker_count(&self) -> usize {
        self.size
    }

    /// A pool always has at least one worker.
    pub closed spec fn wf(&self) -> bool {
        self.size >= 1
    }

    /// The worker `w` dequeues from the same queue this pool submits to.
    pub closed spec fn feeds(&self, w: &Worker<F>) -> bool {
        w.receives_from(&self.sender)
    }

    /// The pool still holds all of its workers: one per identity `0`,
    /// `1`, ... up to the worker count, each attached to the pool's queue.
    pub closed spec fn workers_ready(&self) -> bool {
        &&& self.workers@.len() == self.size
        &&& forall|i: int|
            0 <= i < self.workers@.len() ==> (#[trigger] self.workers@[i]).worker_id() == i
        &&& forall|i: int|
            0 <= i < self.workers@.len() ==> self.feeds(#[trigger] &self.workers@[i])
    }

    /// Create a pool of `size` workers sharing one empty queue.
    ///
    /// A pool of zero workers could never run anything, so `size` must be
    /// positive; [`ThreadPool::try_new`] reports that case as an error
    /// instead.
    pub fn new(size: usize) -> (p: ThreadPool<F>)
        requires
            size >= 1,
        ensures
            p.wf(),
            p.worker_count() == size,
            p.workers_ready(),
    {
        let sender = Channel::<F>::new();
        let mut workers: Vec<Worker<F>> = Vec::new();
        let mut i: usize = 0;
        while i < size
            invariant
                i <= size,
                workers@.len() == i,
                forall|k: int| 0 <= k < i ==> (#[trigger] workers@[k]).worker_id() == k,
                forall|k: int| 0 <= k < i ==> (#[trigger] workers@[k]).receives_from(&sender),
            decreases size - i,
        {
            let receiver = sender.fork();
            let ghost r = receiver;
            let w = Worker::new(i, receiver);
            proof {
                Channel::lemma_shares_queue_trans(&w.receiver, &r, &sender);
            }
            workers.push(w);
            i = i + 1;
        }
        ThreadPool { sender, workers, size }
    }

    /// Create a pool of `size` workers, rejecting a size of zero.
    ///
    /// A zero size is a configuration error: it fails immediately and
    /// deterministically, before any queue or worker exists.
    pub fn try_new(size: usize) -> (r: Result<ThreadPool<F>, PoolError>)
        ensures
            size == 0 <==> (r matches Err(e) && e == PoolError::ZeroWorkers),
            size >= 1 ==> r is Ok,
            r matches Ok(p) ==> p.wf() && p.worker_count() == size && p.workers_ready(),
    {
        if size == 0 {
            Err(PoolError::ZeroWorkers)
        } else {
            Ok(Self::new(size))
        }
    }

    /// Submit one task for asynchronous execution.
    ///
    /// The task is enqueued behind every task submitted before it and the
    /// call returns as soon as it is stored: submission never waits for
    /// execution. The task's precondition must hold now, since an
    /// arbitrary worker will run it later.
    pub fn execute(&self, f: F)
        requires
            call_requires(f, ()),
    {
        self.sender.send(Signal::Dispatch(f));
    }

    /// Move the pool's workers out, to be driven one per thread.
    ///
    /// The pool keeps the sending end, so tasks can still be submitted
    /// and the stop protocol still reaches every worker.
    pub fn take_workers(&mut self) -> (ws: Vec<Worker<F>>)
        requires
            old(self).workers_ready(),
        ensures
            final(self).wf() == old(self).wf(),
            final(self).worker_count() == old(self).worker_count(),
            ws@.len() == old(self).worker_count(),
            forall|i: int| 0 <= i < ws@.len() ==> (#[trigger] ws@[i]).worker_id() == i,
            forall|i: int| 0 <= i < ws@.len() ==> final(self).feeds(#[trigger] &ws@[i]),
    {
        self.workers.split_off(0)
    }

    /// Ask every worker to stop, without cutting short any running task.
    ///
    /// Exactly one stop signal per worker is enqueued, behind all tasks
    /// already submitted; each is consumed by exactly one worker, and a
    /// worker only sees it when idle, so a task in progress always runs to
    /// completion. Returns how many stop signals were sent.
    pub fn request_stop(&self) -> (n: usize)
        ensures
            n == self.worker_count(),
    {
        let mut i: usize = 0;
        while i < self.size
            invariant
                i <= self.size,
            decreases self.size - i,
        {
            self.sender.send(Signal::Stop);
            i = i + 1;
        }
        i
    }
}

} // verus!
