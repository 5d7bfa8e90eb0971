//! A fixed-size worker pool: tasks are submitted to a shared first-in
//! first-out handoff queue and each is run to completion by exactly one of a
//! bounded set of workers, with a counted stop protocol for orderly shutdown.
//!
//! The crate holds the pool's logic: the signal queue and its invariants,
//! the worker's dispatch decisions, and the pool's submission and stop
//! bookkeeping. Spawning and joining the operating-system threads that drive
//! the workers is left to the embedding program.

pub mod channel;
pub mod pool;
pub mod routes;
pub mod signal;

pub use channel::Channel;
pub use pool::{PoolError, Step, ThreadPool, Worker};
pub use signal::Signal;
