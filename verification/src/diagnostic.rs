//! What the pool reports to its observability sink.

use vstd::prelude::*;

verus! {

/// One diagnostic event. The pool never prints: every decision function hands
/// back the events that the caller's sink should record.
#[derive(Clone, Copy, Debug, PartialEq, Eq, Structural)]
pub enum Diagnostic {
    /// A worker dequeued a job and is about to run it.
    JobAcquired { worker: usize },
    /// A worker saw the closed signal and leaves its loop.
    Disconnected { worker: usize },
    /// A worker could not get exclusive access to the receiving end and leaves its loop.
    AccessFailed { worker: usize },
    /// Teardown reached this worker and reclaims its thread.
    ShuttingDown { worker: usize },
    /// The worker's thread had terminated abnormally when it was reclaimed.
    JoinFailed { worker: usize },
    /// A job was forwarded to the queue, which no longer had a receiving end.
    SendFailed,
    /// A job was submitted after the pool had given up its producer handle.
    PoolShutDown,
}

impl Diagnostic {
    /// Failures, as opposed to lifecycle notes.
    pub open spec fn spec_is_failure(self) -> bool {
        match self {
            Diagnostic::JobAcquired { .. } => false,
            Diagnostic::Disconnected { .. } => false,
            Diagnostic::ShuttingDown { .. } => false,
            Diagnostic::AccessFailed { .. } => true,
            Diagnostic::JoinFailed { .. } => true,
            Diagnostic::SendFailed => true,
            Diagnostic::PoolShutDown => true,
        }
    }

    /// Whether the event reports a failure; a sink that separates an error
    /// stream from ordinary output routes by this.
    #[verifier::when_used_as_spec(spec_is_failure)]
    pub fn is_failure(self) -> (b: bool)
        ensures
            b == self.spec_is_failure(),
    {
        match self {
            Diagnostic::JobAcquired { .. } => false,
            Diagnostic::Disconnected { .. } => false,
            Diagnostic::ShuttingDown { .. } => false,
            Diagnostic::AccessFailed { .. } => true,
            Diagnostic::JoinFailed { .. } => true,
            Diagnostic::SendFailed => true,
            Diagnostic::PoolShutDown => true,
        }
    }
}

} // verus!
