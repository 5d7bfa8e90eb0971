use std::cell::RefCell;
use std::rc::Rc;

use taskpool::{Channel, PoolError, Signal, Step, ThreadPool, Worker};
use taskpool::signal::{dequeue_signal, enqueue_signal};

fn noop() {}

fn other_noop() {}

#[test]
fn zero_size_pool_is_rejected() {
    let r = ThreadPool::<fn()>::try_new(0);
    assert!(matches!(r, Err(PoolError::ZeroWorkers)));
}

#[test]
fn one_worker_pool_is_accepted() {
    let r = ThreadPool::<fn()>::try_new(1);
    assert!(r.is_ok());
}

#[test]
fn queue_is_first_in_first_out() {
    let mut q: Vec<Signal<fn()>> = Vec::new();
    enqueue_signal(&mut q, Signal::Dispatch(noop as fn()));
    enqueue_signal(&mut q, Signal::Dispatch(other_noop as fn()));
    enqueue_signal(&mut q, Signal::Stop);

    match dequeue_signal(&mut q) {
        Some(Signal::Dispatch(f)) => assert!(f == noop as fn()),
        _ => panic!("expected the first dispatched task"),
    }
    match dequeue_signal(&mut q) {
        Some(Signal::Dispatch(f)) => assert!(f == other_noop as fn()),
        _ => panic!("expected the second dispatched task"),
    }
    assert!(matches!(dequeue_signal(&mut q), Some(Signal::Stop)));
    assert!(matches!(dequeue_signal(&mut q), None));
    assert!(q.is_empty());
}

#[test]
fn forked_handles_share_one_queue() {
    let chan: Channel<fn()> = Channel::new();
    let other = chan.fork();
    chan.send(Signal::Stop);
    assert!(matches!(other.try_recv(), Some(Signal::Stop)));
    assert!(matches!(chan.try_recv(), None));
}

#[test]
fn act_runs_a_dispatched_task_once() {
    let count = Rc::new(RefCell::new(0u64));
    let c = Rc::clone(&count);
    let task = move || {
        *c.borrow_mut() += 1;
    };
    let step = Worker::act(Some(Signal::Dispatch(task)));
    assert_eq!(step, Step::Ran);
    assert_eq!(*count.borrow(), 1);
}

#[test]
fn act_is_idle_on_an_empty_poll() {
    assert_eq!(Worker::<fn()>::act(None), Step::Idle);
}

#[test]
fn act_stops_on_a_stop_signal() {
    assert_eq!(Worker::<fn()>::act(Some(Signal::Stop)), Step::Stopped);
}

#[test]
fn worker_identities_are_stable() {
    let mut pool = ThreadPool::<fn()>::try_new(3).unwrap();
    let workers = pool.take_workers();
    assert_eq!(workers.len(), 3);
    for (i, w) in workers.iter().enumerate() {
        assert_eq!(w.id(), i);
    }
}

#[test]
fn each_task_runs_exactly_once_and_in_order() {
    let log: Rc<RefCell<Vec<usize>>> = Rc::new(RefCell::new(Vec::new()));
    let mut pool = ThreadPool::try_new(4).unwrap();
    let workers = pool.take_workers();

    for k in 0..8 {
        let l = Rc::clone(&log);
        pool.execute(move || {
            l.borrow_mut().push(k);
        });
    }
    assert_eq!(log.borrow().len(), 0);

    let stops = pool.request_stop();
    assert_eq!(stops, 4);

    // Drive the workers round-robin, as their threads would, until every
    // worker has consumed its stop signal.
    let mut stopped = 0;
    let mut guard = 0;
    while stopped < workers.len() {
        for w in &workers {
            if w.step() == Step::Stopped {
                stopped += 1;
            }
        }
        guard += 1;
        assert!(guard < 100, "workers failed to stop");
    }

    let seen = log.borrow();
    assert_eq!(seen.len(), 8);
    for k in 0..8 {
        assert_eq!(seen[k], k);
    }
}

#[test]
fn eight_increments_on_four_workers_count_to_eight() {
    let counter = Rc::new(RefCell::new(0u64));
    let mut pool = ThreadPool::try_new(4).unwrap();
    let workers = pool.take_workers();

    for _ in 0..8 {
        let c = Rc::clone(&counter);
        pool.execute(move || {
            *c.borrow_mut() += 1;
        });
    }
    assert_eq!(pool.request_stop(), 4);

    let mut stopped = 0;
    while stopped < workers.len() {
        for w in &workers {
            if w.step() == Step::Stopped {
                stopped += 1;
            }
        }
    }
    assert_eq!(*counter.borrow(), 8);
}

#[test]
fn stop_signals_match_worker_count() {
    let mut pool = ThreadPool::<fn()>::try_new(3).unwrap();
    let workers = pool.take_workers();
    assert_eq!(pool.request_stop(), 3);

    // With nothing else queued, each worker's next step consumes exactly
    // one stop signal, and afterwards the queue is empty for everyone.
    let mut stopped = 0;
    for w in &workers {
        if w.step() == Step::Stopped {
            stopped += 1;
        }
    }
    assert_eq!(stopped, 3);
    for w in &workers {
        assert_eq!(w.step(), Step::Idle);
    }
}

#[test]
fn submission_returns_before_any_task_runs() {
    let ran = Rc::new(RefCell::new(0u64));
    let pool = ThreadPool::try_new(2).unwrap();
    for _ in 0..2 {
        let r = Rc::clone(&ran);
        pool.execute(move || {
            *r.borrow_mut() += 1;
        });
    }
    // Both submissions have returned while no worker has taken a step:
    // enqueueing a task never waits for its execution.
    assert_eq!(*ran.borrow(), 0);
}

#[test]
fn one_busy_worker_does_not_block_the_other() {
    let ran = Rc::new(RefCell::new(0u64));
    let mut pool = ThreadPool::try_new(2).unwrap();
    let workers = pool.take_workers();
    for _ in 0..2 {
        let r = Rc::clone(&ran);
        pool.execute(move || {
            *r.borrow_mut() += 1;
        });
    }
    // The first worker never polls, as if stuck in an endless task; the
    // second worker alone still drains the whole queue.
    let w1 = &workers[1];
    assert_eq!(w1.step(), Step::Ran);
    assert_eq!(w1.step(), Step::Ran);
    assert_eq!(w1.step(), Step::Idle);
    assert_eq!(*ran.borrow(), 2);
}

#[test]
fn stopped_worker_accepts_but_never_runs_later_tasks() {
    let ran = Rc::new(RefCell::new(0u64));
    let mut pool = ThreadPool::try_new(1).unwrap();
    let workers = pool.take_workers();
    let w = &workers[0];

    assert_eq!(pool.request_stop(), 1);
    // The pool still accepts a task submitted after the stop request ...
    let r = Rc::clone(&ran);
    pool.execute(move || {
        *r.borrow_mut() += 1;
    });
    // ... but the only worker stops before reaching it, so it is never
    // run: capacity lost to a terminated worker is not restored.
    assert_eq!(w.step(), Step::Stopped);
    assert_eq!(*ran.borrow(), 0);
}

#[test]
fn tasks_before_stop_run_before_the_worker_stops() {
    let ran = Rc::new(RefCell::new(0u64));
    let mut pool = ThreadPool::try_new(1).unwrap();
    let workers = pool.take_workers();
    let w = &workers[0];

    for _ in 0..3 {
        let r = Rc::clone(&ran);
        pool.execute(move || {
            *r.borrow_mut() += 1;
        });
    }
    assert_eq!(pool.request_stop(), 1);
    assert_eq!(w.step(), Step::Ran);
    assert_eq!(w.step(), Step::Ran);
    assert_eq!(w.step(), Step::Ran);
    assert_eq!(w.step(), Step::Stopped);
    assert_eq!(*ran.borrow(), 3);
}
