//! A fixed-size worker pool, and the request routing of the small web
//! server that it serves.
//!
//! The pool takes jobs from any number of producers and hands each of them
//! to exactly one of its workers, in the order they came in. Shutdown sends
//! one terminate signal per worker behind everything that is queued, so
//! that the workers finish what is there and then stop, every one of them.
//!
//! [`ThreadPool`] holds the state of a pool: its workers and its
//! [`JobQueue`]. It holds no thread and never blocks. The program that
//! runs a pool keeps the `ThreadPool` behind a lock and starts one thread
//! per worker. Each thread asks [`ThreadPool::dispatch`] what to do, runs
//! the job it is given outside the lock, reports with
//! [`ThreadPool::complete`], and waits where it is told to wait. Every such
//! call is one step of the state machine in [`model`], whose invariant is
//! stated and proved in [`validity`] and whose guarantees are the theorems
//! of [`laws`]. They hold however the steps of producers and workers are
//! interleaved.
//!
//! [`Route`] decides from the bytes of a request which page answers it and
//! what the response is.

pub mod count;
pub mod laws;
pub mod message;
pub mod model;
pub mod pool;
pub mod queue;
pub mod request;
pub mod validity;
pub mod worker;

pub use message::{Closed, Message};
pub use model::{PoolModel, Step};
pub use pool::ThreadPool;
pub use queue::JobQueue;
pub use request::Route;
pub use worker::{Action, JobOutcome, Worker, WorkerState};
