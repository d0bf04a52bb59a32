//! The pool as a mathematical state machine: its state and its four
//! transitions.
//!
//! Every call on the executable pool is one transition of this machine, so
//! whatever holds of all the states that the machine can reach holds of the
//! pool under any interleaving of submitters and workers.

use crate::count::count;
use crate::message::{Closed, Message};
use crate::worker::{Action, JobOutcome, WorkerState};
use vstd::prelude::*;

verus! {

/// The state of a pool. `workers` and `queue` are what the pool holds;
/// the other fields record what has happened to it so far.
pub struct PoolModel<J> {
    /// The state of each worker, by worker id.
    pub workers: Seq<WorkerState>,
    /// The queue, oldest item first.
    pub queue: Seq<Message<J>>,
    /// Whether shutdown has begun.
    pub shutting_down: bool,
    /// Every job the queue has taken, in the order it took them.
    pub accepted: Seq<J>,
    /// How many jobs have been handed to a worker.
    pub dispatched: nat,
    /// How many jobs have come back from the worker that ran them.
    pub finished: nat,
    /// How many of the finished jobs failed.
    pub failed: nat,
    /// How many jobs had been accepted when shutdown began.
    pub cutoff: nat,
}

/// One thing that can happen to a pool.
pub enum Step<J> {
    /// A producer hands in a job.
    Submit(J),
    /// Shutdown begins.
    Shutdown,
    /// The worker with this id asks for something to do.
    Dispatch(int),
    /// The worker with this id reports how its job ended.
    Complete(int, JobOutcome),
}

/// `n` terminate signals.
pub open spec fn terminates<J>(n: nat) -> Seq<Message<J>> {
    Seq::new(n, |i: int| Message::Terminate)
}

/// The messages that carry `jobs`, in order.
pub open spec fn work<J>(jobs: Seq<J>) -> Seq<Message<J>> {
    jobs.map_values(|job: J| Message::NewJob(job))
}

/// The jobs handed in by the `Submit` steps of `steps`, in order.
pub open spec fn submitted<J>(steps: Seq<Step<J>>) -> Seq<J>
    decreases steps.len(),
{
    if steps.len() == 0 {
        Seq::empty()
    } else {
        match steps.last() {
            Step::Submit(job) => submitted(steps.drop_last()).push(job),
            _ => submitted(steps.drop_last()),
        }
    }
}

impl<J> PoolModel<J> {
    /// A fresh pool of `size` idle workers with an empty queue.
    pub open spec fn new(size: nat) -> Self {
        PoolModel {
            workers: Seq::new(size, |i: int| WorkerState::Idle),
            queue: Seq::empty(),
            shutting_down: false,
            accepted: Seq::empty(),
            dispatched: 0,
            finished: 0,
            failed: 0,
            cutoff: 0,
        }
    }

    /// The number of workers, fixed when the pool is made.
    pub open spec fn size(self) -> nat {
        self.workers.len()
    }

    /// The number of workers that have not stopped.
    pub open spec fn live(self) -> nat {
        (self.workers.len() - count(self.workers, WorkerState::Stopped)) as nat
    }

    /// The number of workers that are running a job.
    pub open spec fn executing(self) -> nat {
        count(self.workers, WorkerState::Executing)
    }

    pub open spec fn is_worker(self, worker: int) -> bool {
        0 <= worker < self.workers.len()
    }

    pub open spec fn is_idle(self, worker: int) -> bool {
        self.is_worker(worker) && self.workers[worker] == WorkerState::Idle
    }

    pub open spec fn is_executing(self, worker: int) -> bool {
        self.is_worker(worker) && self.workers[worker] == WorkerState::Executing
    }

    /// Every worker has stopped.
    pub open spec fn terminated(self) -> bool {
        forall|w: int| 0 <= w < self.workers.len() ==> self.workers[w] == WorkerState::Stopped
    }

    /// A producer hands in `job`. The queue takes it as long as a worker is
    /// left to receive from it; after that the job is dropped.
    pub open spec fn submit(self, job: J) -> Self {
        if self.live() > 0 {
            PoolModel {
                queue: self.queue.push(Message::NewJob(job)),
                accepted: self.accepted.push(job),
                ..self
            }
        } else {
            self
        }
    }

    /// Shutdown begins: one terminate signal per worker goes to the back of
    /// the queue. A second shutdown changes nothing.
    pub open spec fn shutdown(self) -> Self {
        if self.shutting_down {
            self
        } else {
            PoolModel {
                queue: self.queue + terminates(self.workers.len()),
                shutting_down: true,
                cutoff: self.accepted.len(),
                ..self
            }
        }
    }

    /// What a receive on the queue yields right now. The pool keeps the
    /// sending side for as long as it lives, so an empty queue is never a
    /// closed one.
    pub open spec fn front(self) -> Result<Option<Message<J>>, Closed> {
        if self.queue.len() > 0 {
            Ok(Some(self.queue[0]))
        } else {
            Ok(None)
        }
    }

    /// What `worker` is told when it asks for something to do. Only an
    /// idle worker receives from the queue; one that runs a job is told to
    /// wait, and one that has stopped, or is no worker of this pool, to stop.
    pub open spec fn action(self, worker: int) -> Action<J> {
        if self.is_idle(worker) {
            Action::of(self.front())
        } else if self.is_executing(worker) {
            Action::Wait
        } else {
            Action::Stop
        }
    }

    /// The pool after `worker` has asked for something to do: an idle
    /// worker takes the oldest item off the queue, if there is one, and
    /// its state follows what it was told.
    pub open spec fn dispatch(self, worker: int) -> Self {
        if self.is_idle(worker) && self.queue.len() > 0 {
            PoolModel {
                workers: self.workers.update(worker, WorkerState::after(self.action(worker))),
                queue: self.queue.skip(1),
                dispatched: if self.queue[0] is NewJob {
                    self.dispatched + 1
                } else {
                    self.dispatched
                },
                ..self
            }
        } else {
            self
        }
    }

    /// The pool after `worker` has reported the end of its job. A report
    /// from a worker that runs no job changes nothing.
    pub open spec fn complete(self, worker: int, outcome: JobOutcome) -> Self {
        if self.is_executing(worker) {
            PoolModel {
                workers: self.workers.update(worker, WorkerState::after_job(outcome)),
                finished: self.finished + 1,
                failed: if outcome == JobOutcome::Failed {
                    self.failed + 1
                } else {
                    self.failed
                },
                ..self
            }
        } else {
            self
        }
    }

    /// The pool after one step.
    pub open spec fn step(self, step: Step<J>) -> Self {
        match step {
            Step::Submit(job) => self.submit(job),
            Step::Shutdown => self.shutdown(),
            Step::Dispatch(worker) => self.dispatch(worker),
            Step::Complete(worker, outcome) => self.complete(worker, outcome),
        }
    }

    /// The pool after a run of steps, taken in order.
    pub open spec fn run(self, steps: Seq<Step<J>>) -> Self
        decreases steps.len(),
    {
        if steps.len() == 0 {
            self
        } else {
            self.run(steps.drop_last()).step(steps.last())
        }
    }
}

} // verus!
