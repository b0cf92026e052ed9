//! The job queue: an unbounded first-in, first-out transport between the
//! submitters and the workers, without the synchronisation around it.
//!
//! The queue never blocks. Where a blocking receive would wait, `receive`
//! answers `Received::Empty` and the caller waits before asking again.

use std::collections::VecDeque;
use vstd::prelude::*;

verus! {

/// What a receive attempt yields.
pub enum Received<J> {
    /// The oldest queued job.
    Job(J),
    /// The closed signal: nothing is queued and no producer handle remains.
    Closed,
    /// Nothing is queued yet, but a producer handle remains: wait and ask again.
    Empty,
}

/// The mathematical state of a queue.
pub struct QueueView<J> {
    /// The queued jobs, oldest first.
    pub items: Seq<J>,
    /// Whether a producer handle is still alive.
    pub open: bool,
    /// Whether the receiving end is still alive.
    pub connected: bool,
}

impl<J> QueueView<J> {
    /// A fresh queue: empty, with its producer handle and its receiving end alive.
    pub open spec fn fresh() -> Self {
        QueueView { items: Seq::empty(), open: true, connected: true }
    }

    /// Whether a send is accepted: it needs a producer handle to send through
    /// and a receiving end to send to.
    pub open spec fn accepts(self) -> bool {
        self.open && self.connected
    }

    /// The state after sending `job`: appended when accepted, unchanged otherwise.
    pub open spec fn send(self, job: J) -> Self {
        if self.accepts() {
            QueueView { items: self.items.push(job), ..self }
        } else {
            self
        }
    }

    /// What a receive attempt yields in this state.
    pub open spec fn received(self) -> Received<J> {
        if self.items.len() > 0 {
            Received::Job(self.items[0])
        } else if self.open {
            Received::Empty
        } else {
            Received::Closed
        }
    }

    /// The state after a receive attempt: the oldest job, if any, has left.
    pub open spec fn receive(self) -> Self {
        if self.items.len() > 0 {
            QueueView { items: self.items.subrange(1, self.items.len() as int), ..self }
        } else {
            self
        }
    }

    /// The state after the producer handle was given up.
    pub open spec fn close(self) -> Self {
        QueueView { open: false, ..self }
    }

    /// The state after the receiving end was given up.
    pub open spec fn disconnect(self) -> Self {
        QueueView { connected: false, ..self }
    }
}

/// The queue itself. Shared between threads, it sits behind a lock that the
/// caller provides; every method here is a short, non-blocking critical section.
pub struct JobQueue<J> {
    items: VecDeque<J>,
    open: bool,
    connected: bool,
}

impl<J> View for JobQueue<J> {
    type V = QueueView<J>;

    closed spec fn view(&self) -> QueueView<J> {
        QueueView { items: self.items@, open: self.open, connected: self.connected }
    }
}

impl<J> JobQueue<J> {
    /// An empty queue with one producer handle and a receiving end.
    pub fn new() -> (queue: Self)
        ensures
            queue@ == QueueView::<J>::fresh(),
    {
        JobQueue { items: VecDeque::new(), open: true, connected: true }
    }

    /// Enqueues `job` behind everything already queued. Never waits. Fails,
    /// handing the job back, exactly when no producer handle or no receiving
    /// end is alive; the queue is then unchanged.
    pub fn send(&mut self, job: J) -> (result: Result<(), J>)
        ensures
            final(self)@ == old(self)@.send(job),
            old(self)@.accepts() ==> result == Ok::<(), J>(()),
            !old(self)@.accepts() ==> result == Err::<(), J>(job),
    {
        if self.open && self.connected {
            self.items.push_back(job);
            Ok(())
        } else {
            Err(job)
        }
    }

    /// Takes the oldest job if there is one. Otherwise reports the closed
    /// signal when no producer handle remains, and `Empty` while one does.
    /// Jobs queued before the producer handle was given up are still handed
    /// out: the closed signal comes only once the queue has run dry.
    pub fn receive(&mut self) -> (result: Received<J>)
        ensures
            result == old(self)@.received(),
            final(self)@ == old(self)@.receive(),
    {
        match self.items.pop_front() {
            Some(job) => Received::Job(job),
            None => {
                if self.open {
                    Received::Empty
                } else {
                    Received::Closed
                }
            },
        }
    }

    /// Gives up the producer handle. Doing so again changes nothing.
    pub fn close(&mut self)
        ensures
            final(self)@ == old(self)@.close(),
    {
        self.open = false;
    }

    /// Gives up the receiving end. Doing so again changes nothing.
    pub fn disconnect(&mut self)
        ensures
            final(self)@ == old(self)@.disconnect(),
    {
        self.connected = false;
    }

    /// The number of queued jobs.
    pub fn len(&self) -> (n: usize)
        ensures
            n == self@.items.len(),
    {
        self.items.len()
    }

    /// Whether a producer handle is still alive.
    pub fn is_open(&self) -> (b: bool)
        ensures
            b == self@.open,
    {
        self.open
    }

    /// Whether the receiving end is still alive.
    pub fn is_connected(&self) -> (b: bool)
        ensures
            b == self@.connected,
    {
        self.connected
    }
}

} // verus!
