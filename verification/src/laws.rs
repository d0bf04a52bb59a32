//! What follows from the invariant: the guarantees of the pool.
//!
//! Each law is stated of the model. `ThreadPool::lemma_valid` carries it
//! over to a pool: the model of a well-formed pool satisfies the invariant.

use crate::count::{lemma_count_absent, lemma_count_bounds, lemma_count_full, lemma_count_update};
use crate::message::Message;
use crate::model::{submitted, terminates, work, PoolModel, Step};
use crate::worker::{Action, JobOutcome, WorkerState};
use vstd::prelude::*;

verus! {

impl<J> PoolModel<J> {
    /// A bound on the work that is left once no more jobs come in: every
    /// queued item is still to be taken, and every job that is taken is
    /// still to be reported.
    pub open spec fn remaining(self) -> nat {
        2 * self.queue.len() + self.executing()
    }

    // Workers

    /// A worker moves only from idle to executing or stopped, and from
    /// executing to idle; once stopped it stays stopped. Only its own
    /// asking and reporting move it.
    pub proof fn lemma_worker_moves(self, step: Step<J>, worker: int)
        requires
            self.is_worker(worker),
        ensures
            self.step(step).is_worker(worker),
            ({
                let from = self.workers[worker];
                let to = self.step(step).workers[worker];
                ||| to == from
                ||| from == WorkerState::Idle && to == WorkerState::Executing
                ||| from == WorkerState::Idle && to == WorkerState::Stopped
                ||| from == WorkerState::Executing && to == WorkerState::Idle
            }),
            self.step(step).workers[worker] != self.workers[worker] ==> (step matches Step::Dispatch(
                w,
            ) && w == worker) || (step matches Step::Complete(w, _) && w == worker),
    {
    }

    /// A worker that runs a job holds nobody up: whatever the other
    /// workers are doing, an idle worker is given the oldest queued item.
    pub proof fn lemma_idle_worker_is_served(self, worker: int)
        requires
            self.is_idle(worker),
            self.queue.len() > 0,
        ensures
            self.action(worker) == Action::of(Ok(Some(self.queue[0]))),
            self.action(worker) != Action::<J>::Wait,
            self.dispatch(worker).queue == self.queue.skip(1),
    {
    }

    /// The order in which two workers report makes no difference.
    pub proof fn lemma_reports_commute(
        self,
        first: int,
        first_outcome: JobOutcome,
        second: int,
        second_outcome: JobOutcome,
    )
        requires
            first != second,
        ensures
            self.complete(first, first_outcome).complete(second, second_outcome) == self.complete(
                second,
                second_outcome,
            ).complete(first, first_outcome),
    {
        let one = self.complete(first, first_outcome).complete(second, second_outcome);
        let other = self.complete(second, second_outcome).complete(first, first_outcome);
        assert(one.workers =~= other.workers);
    }

    // Jobs

    /// What has happened stays happened: no step takes a job back out of
    /// the record of accepted jobs, or lowers the number handed out or
    /// finished, or undoes the beginning of shutdown.
    pub proof fn lemma_history_only_grows(self, step: Step<J>)
        ensures
            self.accepted.is_prefix_of(self.step(step).accepted),
            self.dispatched <= self.step(step).dispatched,
            self.finished <= self.step(step).finished,
            self.failed <= self.step(step).failed,
            self.shutting_down ==> self.step(step).shutting_down && self.step(step).cutoff
                == self.cutoff,
    {
    }

    /// Until shutdown begins no job is turned away: each one submitted is
    /// accepted and joins the back of the queue.
    pub proof fn lemma_accepts_until_shutdown(self, job: J)
        requires
            self.inv(),
            !self.shutting_down,
        ensures
            self.submit(job).accepted == self.accepted.push(job),
            self.submit(job).queue == self.queue.push(Message::NewJob(job)),
    {
    }

    /// Jobs leave in the order they were accepted, each of them once: the
    /// job a worker is given is the oldest accepted job not handed out
    /// before, and handing it out moves the pool on to the next one.
    pub proof fn lemma_jobs_leave_in_order(self, worker: int, job: J)
        requires
            self.inv(),
            self.action(worker) == Action::Run(job),
        ensures
            self.dispatched < self.accepted.len(),
            job == self.accepted[self.dispatched as int],
            self.dispatch(worker).dispatched == self.dispatched + 1,
            self.dispatch(worker).is_executing(worker),
    {
        lemma_count_bounds(self.workers, WorkerState::Stopped);
    }

    /// Once no job is queued and no worker runs one, every accepted job has
    /// been handed out and has come back: none was lost and none ran twice.
    pub proof fn lemma_quiet_means_done(self)
        requires
            self.inv(),
            forall|i: int| 0 <= i < self.queue.len() ==> !(self.queue[i] is NewJob),
            forall|w: int|
                0 <= w < self.workers.len() ==> self.workers[w] != WorkerState::Executing,
        ensures
            self.dispatched == self.accepted.len(),
            self.finished == self.accepted.len(),
    {
        lemma_count_absent(self.workers, WorkerState::Executing);
        if self.dispatched < self.accepted.len() {
            if self.ahead() > 0 {
                assert(self.queue[0] is NewJob);
            } else {
                assert(self.queue[self.signals() as int] is NewJob);
            }
        }
    }

    /// As long as shutdown is not among the steps, the pool accepts every
    /// job that is submitted, in the order of submission.
    pub proof fn lemma_run_accepts_all(size: nat, steps: Seq<Step<J>>)
        requires
            size > 0,
            forall|i: int| 0 <= i < steps.len() ==> !(steps[i] is Shutdown),
        ensures
            !Self::new(size).run(steps).shutting_down,
            Self::new(size).run(steps).accepted == submitted(steps),
        decreases steps.len(),
    {
        if steps.len() > 0 {
            let before = Self::new(size).run(steps.drop_last());
            Self::lemma_run_accepts_all(size, steps.drop_last());
            Self::lemma_run_inv(size, steps.drop_last());
            match steps.last() {
                Step::Submit(job) => before.lemma_accepts_until_shutdown(job),
                _ => {},
            }
        }
    }

    /// However submitting, handing out and reporting are interleaved: when
    /// the queue is empty again and no worker runs a job, exactly as many
    /// jobs have run to their end as were submitted.
    pub proof fn lemma_every_submitted_job_runs_once(size: nat, steps: Seq<Step<J>>)
        requires
            size > 0,
            forall|i: int| 0 <= i < steps.len() ==> !(steps[i] is Shutdown),
            Self::new(size).run(steps).queue.len() == 0,
            forall|w: int|
                0 <= w < size ==> Self::new(size).run(steps).workers[w] != WorkerState::Executing,
        ensures
            Self::new(size).run(steps).dispatched == submitted(steps).len(),
            Self::new(size).run(steps).finished == submitted(steps).len(),
    {
        Self::lemma_run_accepts_all(size, steps);
        Self::lemma_run_inv(size, steps);
        Self::new(size).run(steps).lemma_quiet_means_done();
    }

    // Shutdown

    /// Shutdown sends exactly one terminate signal for each worker, behind
    /// everything that is queued already.
    pub proof fn lemma_shutdown_signals_each_worker(self)
        requires
            self.inv(),
            !self.shutting_down,
        ensures
            self.shutdown().queue == self.queue + terminates::<J>(self.size()),
            self.shutdown().signals() == self.size(),
            self.shutdown().workers == self.workers,
    {
    }

    /// Asking for shutdown a second time changes nothing.
    pub proof fn lemma_shutdown_twice_is_once(self)
        ensures
            self.shutdown().shutdown() == self.shutdown(),
    {
    }

    /// After shutdown has begun no idle worker is left waiting: as long as
    /// it has not stopped there is something in the queue for it.
    pub proof fn lemma_no_worker_is_left_waiting(self, worker: int)
        requires
            self.inv(),
            self.shutting_down,
            self.is_idle(worker),
        ensures
            self.queue.len() > 0,
            self.action(worker) != Action::<J>::Wait,
    {
        lemma_count_bounds(self.workers, WorkerState::Stopped);
    }

    /// A worker stops only after shutdown has begun, and only when every
    /// job from before shutdown has been handed out.
    pub proof fn lemma_work_drains_before_workers_stop(self, worker: int)
        requires
            self.inv(),
            self.is_worker(worker),
            self.workers[worker] == WorkerState::Stopped,
        ensures
            self.shutting_down,
            self.dispatched == self.cutoff,
    {
        lemma_count_bounds(self.workers, WorkerState::Stopped);
    }

    /// When every worker has stopped, the jobs accepted before shutdown
    /// have all run to their end, each once; no terminate signal is left
    /// over; and what remains queued is what came in after shutdown began.
    pub proof fn lemma_terminated_means_drained(self)
        requires
            self.inv(),
            self.terminated(),
        ensures
            self.shutting_down,
            self.dispatched == self.cutoff,
            self.finished == self.cutoff,
            self.queue == work(self.accepted.skip(self.cutoff as int)),
    {
        lemma_count_full(self.workers, WorkerState::Stopped);
        lemma_count_absent(self.workers, WorkerState::Executing);
    }

    /// When shutdown has begun and no terminate signal is left in the
    /// queue, every worker has stopped.
    pub proof fn lemma_signals_gone_means_terminated(self)
        requires
            self.inv(),
            self.shutting_down,
            forall|i: int| 0 <= i < self.queue.len() ==> !(self.queue[i] is Terminate),
        ensures
            self.terminated(),
    {
        lemma_count_bounds(self.workers, WorkerState::Stopped);
        if self.signals() > 0 {
            assert(self.queue[self.ahead()] is Terminate);
        }
    }

    /// Until every worker has stopped, shutdown can always go on: some
    /// worker runs a job and will report, or is idle and finds the queue
    /// not empty.
    pub proof fn lemma_shutdown_can_go_on(self) -> (worker: int)
        requires
            self.inv(),
            self.shutting_down,
            !self.terminated(),
        ensures
            self.is_executing(worker) || (self.is_idle(worker) && self.queue.len() > 0),
    {
        let worker = choose|w: int|
            0 <= w < self.workers.len() && self.workers[w] != WorkerState::Stopped;
        if self.is_idle(worker) {
            self.lemma_no_worker_is_left_waiting(worker);
        }
        worker
    }

    /// Each step a worker takes uses up some of the work that is left, so
    /// once jobs stop coming in the workers' steps come to an end.
    pub proof fn lemma_worker_steps_use_up_work(self, worker: int, outcome: JobOutcome)
        ensures
            self.is_idle(worker) && self.queue.len() > 0 ==> self.dispatch(worker).remaining()
                < self.remaining(),
            self.is_executing(worker) ==> self.complete(worker, outcome).remaining()
                < self.remaining(),
    {
        if self.is_idle(worker) && self.queue.len() > 0 {
            lemma_count_update(
                self.workers,
                worker,
                WorkerState::after(self.action(worker)),
                WorkerState::Executing,
            );
        }
        if self.is_executing(worker) {
            lemma_count_update(
                self.workers,
                worker,
                WorkerState::after_job(outcome),
                WorkerState::Executing,
            );
        }
    }
}

} // verus!
