//! Workers: the record that the pool keeps of each one, and the state machine
//! that the worker's own thread steps through.

use crate::diagnostic::Diagnostic;
use crate::queue::Received;
use vstd::prelude::*;

verus! {

/// Where a worker's loop stands.
#[derive(Clone, Copy, Debug, PartialEq, Eq, Structural)]
pub enum WorkerState {
    /// Waiting for exclusive access to the receiving end, or for a job to arrive.
    Running,
    /// Running a job to completion.
    Executing,
    /// Out of the loop for good.
    Terminated,
}

/// The outcome of one attempt to pull from the shared receiving end.
pub enum Access<J> {
    /// Exclusive access was acquired and the queue answered.
    Granted(Received<J>),
    /// Exclusive access could not be acquired.
    Failed,
}

/// What the worker's thread has to do next.
pub enum Directive<J> {
    /// Release the receiving end and run this job to completion.
    Run(J),
    /// Nothing is queued yet: wait for the queue to change and pull again.
    Wait,
    /// Leave the loop.
    Stop,
}

impl WorkerState {
    /// The state that a worker moves to when the job it was running returns:
    /// back to `Running` from `Executing`. A worker that was running no job
    /// stays where it is; in particular, nothing leads out of `Terminated`.
    pub open spec fn after_job(self) -> WorkerState {
        if self == WorkerState::Executing {
            WorkerState::Running
        } else {
            self
        }
    }

    /// The state that a running worker moves to on the outcome of a pull:
    /// to `Executing` on a job, to `Terminated` on the closed signal or on an
    /// access failure, and nowhere while the queue is merely empty.
    pub open spec fn after_pull<J>(self, attempt: Access<J>) -> WorkerState {
        match attempt {
            Access::Granted(Received::Job(_)) => WorkerState::Executing,
            Access::Granted(Received::Empty) => WorkerState::Running,
            Access::Granted(Received::Closed) => WorkerState::Terminated,
            Access::Failed => WorkerState::Terminated,
        }
    }
}

/// The directive that answers the outcome of a pull.
pub open spec fn directive_for<J>(attempt: Access<J>) -> Directive<J> {
    match attempt {
        Access::Granted(Received::Job(job)) => Directive::Run(job),
        Access::Granted(Received::Empty) => Directive::Wait,
        Access::Granted(Received::Closed) => Directive::Stop,
        Access::Failed => Directive::Stop,
    }
}

/// The event that worker `id` reports on the outcome of a pull.
pub open spec fn note_for<J>(id: usize, attempt: Access<J>) -> Option<Diagnostic> {
    match attempt {
        Access::Granted(Received::Job(_)) => Some(Diagnostic::JobAcquired { worker: id }),
        Access::Granted(Received::Empty) => None,
        Access::Granted(Received::Closed) => Some(Diagnostic::Disconnected { worker: id }),
        Access::Failed => Some(Diagnostic::AccessFailed { worker: id }),
    }
}

/// The thread-side half of a worker: its id and the state of its loop.
///
/// The thread that owns it alternates between pulling from the queue and
/// telling the loop what came back; the loop answers with what to do next.
pub struct WorkerLoop {
    id: usize,
    state: WorkerState,
}

impl WorkerLoop {
    /// The worker's stable id.
    pub closed spec fn spec_id(&self) -> usize {
        self.id
    }

    /// The state of the loop.
    pub closed spec fn spec_state(&self) -> WorkerState {
        self.state
    }

    /// The loop of worker `id`, about to pull for the first time.
    pub fn new(id: usize) -> (worker: Self)
        ensures
            worker.id() == id,
            worker.state() == WorkerState::Running,
    {
        WorkerLoop { id, state: WorkerState::Running }
    }

    /// The worker's stable id.
    #[verifier::when_used_as_spec(spec_id)]
    pub fn id(&self) -> (id: usize)
        ensures
            id == self.spec_id(),
    {
        self.id
    }

    /// The state of the loop.
    #[verifier::when_used_as_spec(spec_state)]
    pub fn state(&self) -> (state: WorkerState)
        ensures
            state == self.spec_state(),
    {
        self.state
    }

    /// Takes in the outcome of a pull. A job is handed back to be run, exactly
    /// as it was received. The closed signal and an access failure both end
    /// the loop at once; a failed acquisition is never retried.
    pub fn on_pull<J>(&mut self, attempt: Access<J>) -> (decision: (Directive<J>, Option<Diagnostic>))
        requires
            old(self).state() == WorkerState::Running,
        ensures
            final(self).id() == old(self).id(),
            final(self).state() == old(self).state().after_pull(attempt),
            decision.0 == directive_for(attempt),
            decision.1 == note_for(old(self).id(), attempt),
    {
        match attempt {
            Access::Granted(Received::Job(job)) => {
                self.state = WorkerState::Executing;
                (Directive::Run(job), Some(Diagnostic::JobAcquired { worker: self.id }))
            },
            Access::Granted(Received::Empty) => (Directive::Wait, None),
            Access::Granted(Received::Closed) => {
                self.state = WorkerState::Terminated;
                (Directive::Stop, Some(Diagnostic::Disconnected { worker: self.id }))
            },
            Access::Failed => {
                self.state = WorkerState::Terminated;
                (Directive::Stop, Some(Diagnostic::AccessFailed { worker: self.id }))
            },
        }
    }

    /// The job that was being run has returned: the worker pulls again.
    pub fn on_job_done(&mut self)
        ensures
            final(self).id() == old(self).id(),
            final(self).state() == old(self).state().after_job(),
    {
        match self.state {
            WorkerState::Executing => {
                self.state = WorkerState::Running;
            },
            _ => {},
        }
    }
}

/// The pool-side half of a worker: its id and the handle of its thread, which
/// is present while the thread may be running and absent once it was reclaimed.
pub struct Worker<H> {
    id: usize,
    thread: Option<H>,
}

impl<H> Worker<H> {
    /// The worker's stable id.
    pub closed spec fn spec_id(&self) -> usize {
        self.id
    }

    /// The handle of the worker's thread, if it has not been reclaimed.
    pub closed spec fn thread(&self) -> Option<H> {
        self.thread
    }

    /// The record of worker `id`, whose thread `thread` has been started.
    pub fn new(id: usize, thread: H) -> (worker: Self)
        ensures
            worker.id() == id,
            worker.thread() == Some(thread),
    {
        Worker { id, thread: Some(thread) }
    }

    /// The worker's stable id.
    #[verifier::when_used_as_spec(spec_id)]
    pub fn id(&self) -> (id: usize)
        ensures
            id == self.spec_id(),
    {
        self.id
    }

    /// Whether the thread's handle is still held.
    pub fn has_thread(&self) -> (b: bool)
        ensures
            b == self.thread().is_some(),
    {
        self.thread.is_some()
    }

    /// Hands out the thread's handle, leaving none behind. A second call
    /// finds nothing to hand out.
    pub fn take_thread(&mut self) -> (thread: Option<H>)
        ensures
            thread == old(self).thread(),
            final(self).thread().is_none(),
            final(self).id() == old(self).id(),
    {
        self.thread.take()
    }
}

} // verus!
