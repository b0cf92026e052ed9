//! A fixed-size worker pool for a small web server, written without any
//! I/O of its own.
//!
//! The crate holds the decisions of a pool of long-lived worker threads that
//! pull jobs from one shared queue: the queue's first-in, first-out
//! discipline, the state machine of a worker's loop, and the pool's
//! construction, submission and teardown. Threads, locks and printing are
//! the caller's: every function here takes plain values and answers with
//! what is to be done next and what is to be reported. `model` puts the
//! parts together and proves what the pool as a whole delivers; `http` holds
//! what the server answers to a request.

pub mod diagnostic;
pub mod http;
pub mod model;
pub mod pool;
pub mod queue;
pub mod worker;

pub use diagnostic::Diagnostic;
pub use pool::{Reclaimed, Submission, ThreadPool};
pub use queue::{JobQueue, Received};
pub use worker::{Access, Directive, Worker, WorkerLoop, WorkerState};
