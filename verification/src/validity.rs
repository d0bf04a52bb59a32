//! What holds of every state the pool can reach, and the proof that each
//! transition keeps it so.

use crate::count::{lemma_count_bounds, lemma_count_fresh, lemma_count_update};
use crate::message::Message;
use crate::model::{terminates, work, PoolModel, Step};
use crate::worker::{JobOutcome, WorkerState};
use vstd::prelude::*;

verus! {

impl<J> PoolModel<J> {
    /// The number of accepted jobs that are ahead of the terminate signals:
    /// all of them while the pool runs, those accepted before shutdown
    /// once it has begun.
    pub open spec fn boundary(self) -> nat {
        if self.shutting_down {
            self.cutoff
        } else {
            self.accepted.len()
        }
    }

    /// The number of terminate signals in the queue.
    pub open spec fn signals(self) -> nat {
        if self.shutting_down {
            self.live()
        } else {
            0
        }
    }

    /// The number of queued jobs that are ahead of the terminate signals.
    pub open spec fn ahead(self) -> int {
        self.boundary() - self.dispatched
    }

    /// What the queue must hold, going by the record of what has
    /// happened: the jobs accepted before shutdown that have not been
    /// handed out; then one terminate signal for each worker that shutdown
    /// has yet to stop; then the jobs accepted after shutdown began.
    pub open spec fn lineup(self) -> Seq<Message<J>> {
        work(self.accepted.subrange(self.dispatched as int, self.boundary() as int)) + terminates(
            self.signals(),
        ) + work(self.accepted.skip(self.boundary() as int))
    }

    /// What holds of every state the pool can reach.
    ///
    /// The pool has a worker. The jobs handed out are among those accepted
    /// before shutdown, and each of them is either running or finished.
    /// The queue holds what its lineup says, so jobs leave in the order
    /// they were accepted. No worker stops before shutdown, or while a job
    /// from before shutdown is still queued.
    pub open spec fn inv(self) -> bool {
        &&& self.workers.len() > 0
        &&& self.dispatched <= self.boundary() <= self.accepted.len()
        &&& self.dispatched == self.finished + self.executing()
        &&& self.failed <= self.finished
        &&& self.queue == self.lineup()
        &&& (!self.shutting_down || self.ahead() > 0) ==> self.live() == self.workers.len()
    }

    /// A fresh pool is valid: it has the workers it was asked for, all of
    /// them idle, and nothing has happened to it.
    pub proof fn lemma_new_inv(size: nat)
        requires
            size > 0,
        ensures
            Self::new(size).inv(),
            Self::new(size).size() == size,
            Self::new(size).live() == size,
            forall|w: int| 0 <= w < size ==> Self::new(size).is_idle(w),
    {
        lemma_count_fresh(size, WorkerState::Stopped);
        lemma_count_fresh(size, WorkerState::Executing);
        assert(Self::new(size).queue =~= Self::new(size).lineup());
    }

    /// Submitting keeps the pool valid.
    pub proof fn lemma_submit_inv(self, job: J)
        requires
            self.inv(),
        ensures
            self.submit(job).inv(),
    {
        let next = self.submit(job);
        if self.live() > 0 {
            assert(next.queue =~= next.lineup());
        }
    }

    /// Beginning shutdown keeps the pool valid.
    pub proof fn lemma_shutdown_inv(self)
        requires
            self.inv(),
        ensures
            self.shutdown().inv(),
    {
        let next = self.shutdown();
        if !self.shutting_down {
            assert(next.queue =~= next.lineup());
        }
    }

    /// A worker's asking for something to do keeps the pool valid.
    pub proof fn lemma_dispatch_inv(self, worker: int)
        requires
            self.inv(),
        ensures
            self.dispatch(worker).inv(),
    {
        let next = self.dispatch(worker);
        if self.is_idle(worker) && self.queue.len() > 0 {
            let to = WorkerState::after(self.action(worker));
            lemma_count_bounds(self.workers, WorkerState::Stopped);
            lemma_count_update(self.workers, worker, to, WorkerState::Stopped);
            lemma_count_update(self.workers, worker, to, WorkerState::Executing);
            assert(next.queue =~= next.lineup());
        }
    }

    /// A worker's report of the end of its job keeps the pool valid.
    pub proof fn lemma_complete_inv(self, worker: int, outcome: JobOutcome)
        requires
            self.inv(),
        ensures
            self.complete(worker, outcome).inv(),
    {
        if self.is_executing(worker) {
            let to = WorkerState::after_job(outcome);
            lemma_count_update(self.workers, worker, to, WorkerState::Stopped);
            lemma_count_update(self.workers, worker, to, WorkerState::Executing);
        }
    }

    /// No step changes the number of workers, and every step keeps the
    /// pool valid.
    pub proof fn lemma_step_inv(self, step: Step<J>)
        requires
            self.inv(),
        ensures
            self.step(step).inv(),
            self.step(step).size() == self.size(),
    {
        match step {
            Step::Submit(job) => self.lemma_submit_inv(job),
            Step::Shutdown => self.lemma_shutdown_inv(),
            Step::Dispatch(worker) => self.lemma_dispatch_inv(worker),
            Step::Complete(worker, outcome) => self.lemma_complete_inv(worker, outcome),
        }
    }

    /// Whatever happens to a pool of `size` workers, in whatever order, it
    /// stays valid and keeps exactly `size` workers.
    pub proof fn lemma_run_inv(size: nat, steps: Seq<Step<J>>)
        requires
            size > 0,
        ensures
            Self::new(size).run(steps).inv(),
            Self::new(size).run(steps).size() == size,
        decreases steps.len(),
    {
        Self::lemma_new_inv(size);
        if steps.len() > 0 {
            Self::lemma_run_inv(size, steps.drop_last());
            Self::new(size).run(steps.drop_last()).lemma_step_inv(steps.last());
        }
    }
}

} // verus!
