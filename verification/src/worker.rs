//! The worker: what it is told to do with each thing it receives, and the
//! three states it moves through.

use crate::message::{Closed, Message};
use vstd::prelude::*;

verus! {

/// Where a worker stands. It starts `Idle`, is `Executing` while it runs a
/// job, and never leaves `Stopped`.
#[derive(Debug, Clone, Copy, PartialEq, Eq, Structural)]
pub enum WorkerState {
    Idle,
    Executing,
    Stopped,
}

/// How a job came back to the worker that ran it.
#[derive(Debug, Clone, Copy, PartialEq, Eq, Structural)]
pub enum JobOutcome {
    /// The job ran to its end.
    Returned,
    /// The job failed; the failure was caught and goes no further.
    Failed,
}

/// What an idle worker does next.
#[derive(Debug, PartialEq, Eq)]
pub enum Action<J> {
    /// Run this job to completion, then report back.
    Run(J),
    /// Nothing is queued: wait until something is, then ask again.
    Wait,
    /// Leave the loop for good.
    Stop,
}

impl<J> Action<J> {
    /// The action that answers what came out of the queue: work is run, the
    /// terminate signal and a closed queue both end the loop, and an empty
    /// queue means waiting.
    pub open spec fn of(received: Result<Option<Message<J>>, Closed>) -> Action<J> {
        match received {
            Ok(Some(Message::NewJob(job))) => Action::Run(job),
            Ok(Some(Message::Terminate)) => Action::Stop,
            Ok(None) => Action::Wait,
            Err(_) => Action::Stop,
        }
    }

    /// Decides what a worker does with what it received.
    pub fn decide(received: Result<Option<Message<J>>, Closed>) -> (action: Action<J>)
        ensures
            action == Action::of(received),
    {
        match received {
            Ok(Some(Message::NewJob(job))) => Action::Run(job),
            Ok(Some(Message::Terminate)) => Action::Stop,
            Ok(None) => Action::Wait,
            Err(_) => Action::Stop,
        }
    }
}

impl WorkerState {
    /// The state of a worker that was idle and has been told `action`.
    pub open spec fn after<J>(action: Action<J>) -> WorkerState {
        match action {
            Action::Run(_) => WorkerState::Executing,
            Action::Wait => WorkerState::Idle,
            Action::Stop => WorkerState::Stopped,
        }
    }

    /// The state of a worker whose job has come back. A failed job costs the
    /// pool nothing: the worker is idle again either way.
    pub open spec fn after_job(outcome: JobOutcome) -> WorkerState {
        WorkerState::Idle
    }
}

/// One worker of a pool: its stable id and its current state. The thread
/// that does the work belongs to whoever drives the pool.
#[derive(Debug, Clone, Copy)]
pub struct Worker {
    id: usize,
    state: WorkerState,
}

impl Worker {
    /// An idle worker with the given id.
    pub(crate) fn new(id: usize) -> (worker: Worker)
        ensures
            worker.id() == id,
            worker.state() == WorkerState::Idle,
    {
        Worker { id, state: WorkerState::Idle }
    }

    pub closed spec fn spec_id(&self) -> usize {
        self.id
    }

    pub closed spec fn spec_state(&self) -> WorkerState {
        self.state
    }

    /// The id this worker was created with.
    #[verifier::when_used_as_spec(spec_id)]
    pub fn id(&self) -> (id: usize)
        ensures
            id == self.spec_id(),
    {
        self.id
    }

    /// The state this worker is in.
    #[verifier::when_used_as_spec(spec_state)]
    pub fn state(&self) -> (state: WorkerState)
        ensures
            state == self.spec_state(),
    {
        self.state
    }

    /// Takes what the queue gave this idle worker and returns what to do
    /// with it; the worker's state follows the action.
    pub(crate) fn receive<J>(&mut self, received: Result<Option<Message<J>>, Closed>) -> (action:
        Action<J>)
        requires
            old(self).state() == WorkerState::Idle,
        ensures
            action == Action::of(received),
            final(self).state() == WorkerState::after(action),
            final(self).id() == old(self).id(),
    {
        let action = Action::decide(received);
        self.state =
        match action {
            Action::Run(_) => WorkerState::Executing,
            Action::Wait => WorkerState::Idle,
            Action::Stop => WorkerState::Stopped,
        };
        action
    }

    /// Takes back the worker whose job has ended, however it ended.
    pub(crate) fn finish(&mut self, outcome: JobOutcome)
        requires
            old(self).state() == WorkerState::Executing,
        ensures
            final(self).state() == WorkerState::after_job(outcome),
            final(self).id() == old(self).id(),
    {
        self.state = WorkerState::Idle;
    }
}

} // verus!
