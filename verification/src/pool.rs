//! The pool: a fixed set of workers around one job queue.
//!
//! The pool holds no thread. It is the shared state that the threads of a
//! running pool act on, one call at a time: a producer calls `submit`, a
//! worker thread calls `dispatch`, runs what it is given and calls
//! `complete`, and whoever tears the pool down calls `shutdown` and then
//! waits for the threads.

use crate::count::{lemma_count_bounds, lemma_count_full, lemma_count_update};
use crate::message::Message;
use crate::model::{terminates, PoolModel};
use crate::queue::JobQueue;
use crate::worker::{Action, JobOutcome, Worker, WorkerState};
use vstd::prelude::*;

verus! {

/// A pool of workers that take jobs of type `J` from a shared queue.
///
/// Beside its workers and its queue the pool keeps, as ghost state, the
/// record of what has happened to it: which jobs the queue has accepted,
/// how many of them were handed out, how many have come back and how many
/// of those failed, and how many had been accepted when shutdown began.
/// Its view is the state of the model with that record.
pub struct ThreadPool<J> {
    workers: Vec<Worker>,
    queue: JobQueue<J>,
    shutting_down: bool,
    accepted: Ghost<Seq<J>>,
    dispatched: Ghost<nat>,
    finished: Ghost<nat>,
    failed: Ghost<nat>,
    cutoff: Ghost<nat>,
}

impl<J> View for ThreadPool<J> {
    type V = PoolModel<J>;

    closed spec fn view(&self) -> PoolModel<J> {
        PoolModel {
            workers: self.workers@.map_values(|w: Worker| w.state()),
            queue: self.queue@,
            shutting_down: self.shutting_down,
            accepted: self.accepted@,
            dispatched: self.dispatched@,
            finished: self.finished@,
            failed: self.failed@,
            cutoff: self.cutoff@,
        }
    }
}

impl<J> ThreadPool<J> {
    /// The pool is in a state it can reach: its model is valid, each
    /// worker carries its position as its id, and the queue's sending side
    /// is open with one receiver for each worker that has not stopped.
    pub closed spec fn wf(&self) -> bool {
        &&& self@.inv()
        &&& forall|i: int| 0 <= i < self.workers.len() ==> (#[trigger] self.workers[i]).id() == i
        &&& self.queue.is_open()
        &&& self.queue.consumers() == self@.live()
    }

    /// A well-formed pool is in a valid state of the model, so that every
    /// law of the model holds of it.
    pub proof fn lemma_valid(&self)
        requires
            self.wf(),
        ensures
            self@.inv(),
    {
    }

    /// Creates a pool of `size` idle workers, with ids `0` to `size - 1`,
    /// around an empty queue.
    pub fn new(size: usize) -> (pool: Self)
        requires
            size > 0,
        ensures
            pool.wf(),
            pool@ == PoolModel::<J>::new(size as nat),
    {
        let mut workers: Vec<Worker> = Vec::new();
        let mut id: usize = 0;
        while id < size
            invariant
                id <= size,
                workers.len() == id,
                forall|i: int|
                    0 <= i < id ==> (#[trigger] workers[i]).id() == i && workers[i].state()
                        == WorkerState::Idle,
            decreases size - id,
        {
            workers.push(Worker::new(id));
            id = id + 1;
        }
        let pool = ThreadPool {
            workers,
            queue: JobQueue::new(size),
            shutting_down: false,
            accepted: Ghost(Seq::empty()),
            dispatched: Ghost(0),
            finished: Ghost(0),
            failed: Ghost(0),
            cutoff: Ghost(0),
        };
        proof {
            PoolModel::<J>::lemma_new_inv(size as nat);
            assert(pool@.workers =~= PoolModel::<J>::new(size as nat).workers);
        }
        pool
    }

    /// Creates a pool of `size` workers, or nothing when `size` is zero: a
    /// pool without workers could never run a job.
    pub fn try_new(size: usize) -> (pool: Option<Self>)
        ensures
            pool is Some <==> size > 0,
            pool matches Some(p) ==> p.wf() && p@ == PoolModel::<J>::new(size as nat),
    {
        if size > 0 {
            Some(Self::new(size))
        } else {
            None
        }
    }

    /// Hands `job` to the pool. It joins the back of the queue; once every
    /// worker has stopped it is dropped instead, and nothing tells the
    /// caller so.
    pub fn submit(&mut self, job: J)
        requires
            old(self).wf(),
        ensures
            final(self).wf(),
            final(self)@ == old(self)@.submit(job),
    {
        let ghost before = self@;
        let ghost accepted = self.accepted@.push(job);
        match self.queue.send(Message::NewJob(job)) {
            Ok(()) => {
                self.accepted = Ghost(accepted);
            },
            Err(_) => {},
        }
        proof {
            before.lemma_submit_inv(job);
        }
    }

    /// Begins shutdown: sends one terminate signal for each worker, behind
    /// everything that is queued. The workers stop as the signals reach
    /// them; waiting for that is the caller's part. A second call changes
    /// nothing.
    pub fn shutdown(&mut self)
        requires
            old(self).wf(),
        ensures
            final(self).wf(),
            final(self)@ == old(self)@.shutdown(),
    {
        if self.shutting_down {
            return ;
        }
        let ghost before = self@;
        let size = self.workers.len();
        let mut sent: usize = 0;
        while sent < size
            invariant
                sent <= size,
                size == self.workers.len(),
                self.workers == old(self).workers,
                self.shutting_down == old(self).shutting_down,
                self.accepted == old(self).accepted,
                self.dispatched == old(self).dispatched,
                self.finished == old(self).finished,
                self.failed == old(self).failed,
                self.cutoff == old(self).cutoff,
                self.queue.is_open(),
                self.queue.consumers() == size,
                size > 0,
                self.queue@ == old(self).queue@ + terminates::<J>(sent as nat),
            decreases size - sent,
        {
            let _ = self.queue.send(Message::Terminate);
            sent = sent + 1;
        }
        self.shutting_down = true;
        self.cutoff = Ghost(self.accepted@.len());
        proof {
            before.lemma_shutdown_inv();
        }
    }

    /// Answers the worker `worker`, which asks for something to do.
    ///
    /// An idle worker is given the oldest item of the queue: a job to run,
    /// after which it must call `complete`; or the word to stop, after
    /// which it is stopped for good; or, the queue being empty, the word to
    /// wait and ask again. A worker that has not reported the end of its
    /// job is told to wait, and one that has stopped, or whose id is not
    /// one of this pool's, to stop; for them nothing changes.
    pub fn dispatch(&mut self, worker: usize) -> (action: Action<J>)
        requires
            old(self).wf(),
        ensures
            final(self).wf(),
            final(self)@ == old(self)@.dispatch(worker as int),
            action == old(self)@.action(worker as int),
    {
        let ghost before = self@;
        if worker >= self.workers.len() {
            return Action::Stop;
        }
        let mut record = self.workers[worker];
        match record.state() {
            WorkerState::Stopped => Action::Stop,
            WorkerState::Executing => Action::Wait,
            WorkerState::Idle => {
                let action = record.receive(self.queue.try_receive());
                self.workers[worker] = record;
                match &action {
                    Action::Run(_) => {
                        self.dispatched = Ghost(self.dispatched@ + 1);
                    },
                    Action::Wait => {},
                    Action::Stop => {
                        self.queue.detach_consumer();
                    },
                }
                proof {
                    before.lemma_dispatch_inv(worker as int);
                    if before.queue.len() > 0 {
                        assert(self@.workers =~= before.workers.update(
                            worker as int,
                            record.state(),
                        ));
                        lemma_count_update(
                            before.workers,
                            worker as int,
                            record.state(),
                            WorkerState::Stopped,
                        );
                    } else {
                        assert(self@.workers =~= before.workers);
                    }
                    lemma_count_bounds(before.workers, WorkerState::Stopped);
                }
                action
            },
        }
    }

    /// Takes the report of worker `worker` that its job has ended, and
    /// says whether that worker was running one. The worker is idle again
    /// whether the job returned or failed: a failing job does not cost the
    /// pool a worker. A report from a worker that runs no job changes
    /// nothing.
    pub fn complete(&mut self, worker: usize, outcome: JobOutcome) -> (reported: bool)
        requires
            old(self).wf(),
        ensures
            final(self).wf(),
            final(self)@ == old(self)@.complete(worker as int, outcome),
            reported == old(self)@.is_executing(worker as int),
    {
        let ghost before = self@;
        if worker >= self.workers.len() {
            return false;
        }
        let mut record = self.workers[worker];
        match record.state() {
            WorkerState::Executing => {
                record.finish(outcome);
                self.workers[worker] = record;
                self.finished = Ghost(self.finished@ + 1);
                match outcome {
                    JobOutcome::Failed => {
                        self.failed = Ghost(self.failed@ + 1);
                    },
                    JobOutcome::Returned => {},
                }
                proof {
                    before.lemma_complete_inv(worker as int, outcome);
                    assert(self@.workers =~= before.workers.update(worker as int, record.state()));
                    lemma_count_update(
                        before.workers,
                        worker as int,
                        record.state(),
                        WorkerState::Stopped,
                    );
                }
                true
            },
            _ => false,
        }
    }

    /// The number of workers.
    pub fn size(&self) -> (size: usize)
        requires
            self.wf(),
        ensures
            size == self@.size(),
            size > 0,
    {
        self.workers.len()
    }

    /// The worker with id `id`, if the pool has one.
    pub fn worker(&self, id: usize) -> (worker: Option<Worker>)
        requires
            self.wf(),
        ensures
            worker is Some <==> self@.is_worker(id as int),
            worker matches Some(w) ==> w.id() == id && w.state() == self@.workers[id as int],
    {
        if id < self.workers.len() {
            Some(self.workers[id])
        } else {
            None
        }
    }

    /// The number of items in the queue, jobs and terminate signals alike.
    pub fn queued(&self) -> (queued: usize)
        ensures
            queued == self@.queue.len(),
    {
        self.queue.len()
    }

    /// Whether shutdown has begun.
    pub fn is_shutting_down(&self) -> (shutting_down: bool)
        ensures
            shutting_down == self@.shutting_down,
    {
        self.shutting_down
    }

    /// Whether every worker has stopped, so that nothing is left to wait
    /// for.
    pub fn is_terminated(&self) -> (terminated: bool)
        requires
            self.wf(),
        ensures
            terminated == self@.terminated(),
    {
        proof {
            lemma_count_bounds(self@.workers, WorkerState::Stopped);
            if self@.terminated() {
                lemma_count_full(self@.workers, WorkerState::Stopped);
            }
        }
        self.queue.consumers() == 0
    }
}

} // verus!
