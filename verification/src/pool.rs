//! The pool: the owner of the workers and of the producer handle.

use crate::diagnostic::Diagnostic;
use crate::worker::Worker;
use vstd::prelude::*;

verus! {

/// The mathematical state of a pool: whether it still holds its producer
/// handle and, for each worker in construction order, whether it still holds
/// the handle of that worker's thread.
pub struct PoolView {
    pub holds_sender: bool,
    pub threads: Seq<bool>,
}

/// The least index from `from` on at which `threads` holds a handle, or the
/// length of `threads` if there is none.
pub open spec fn first_held(threads: Seq<bool>, from: int) -> int
    decreases threads.len() - from,
{
    if from < 0 || from >= threads.len() {
        threads.len() as int
    } else if threads[from] {
        from
    } else {
        first_held(threads, from + 1)
    }
}

impl PoolView {
    /// A pool of `size` workers just after construction.
    pub open spec fn fresh(size: nat) -> PoolView {
        PoolView { holds_sender: true, threads: Seq::new(size, |i: int| true) }
    }

    /// The number of workers.
    pub open spec fn size(self) -> nat {
        self.threads.len()
    }

    /// The state after the producer handle was handed out.
    pub open spec fn relinquish(self) -> PoolView {
        PoolView { holds_sender: false, ..self }
    }

    /// The worker whose thread teardown waits on next: the first, in
    /// construction order, whose handle is still held. Equal to the number of
    /// workers when no handle is left.
    pub open spec fn next_reclaim(self) -> int {
        first_held(self.threads, 0)
    }

    /// The state after the next thread was handed out.
    pub open spec fn reclaim(self) -> PoolView {
        if self.next_reclaim() < self.threads.len() {
            PoolView { threads: self.threads.update(self.next_reclaim(), false), ..self }
        } else {
            self
        }
    }

    /// Whether no thread handle is left.
    pub open spec fn reclaimed(self) -> bool {
        forall|i: int| 0 <= i < self.threads.len() ==> !self.threads[i]
    }

    /// Whether teardown is complete: the producer handle is gone and every
    /// thread has been waited on.
    pub open spec fn torn_down(self) -> bool {
        !self.holds_sender && self.reclaimed()
    }
}

/// `first_held` finds a held handle at or after `from` with none before it,
/// or runs off the end when there is none.
pub proof fn lemma_first_held(threads: Seq<bool>, from: int)
    requires
        0 <= from <= threads.len(),
    ensures
        from <= first_held(threads, from) <= threads.len(),
        first_held(threads, from) < threads.len() ==> threads[first_held(threads, from)],
        forall|j: int| from <= j < first_held(threads, from) ==> !threads[j],
    decreases threads.len() - from,
{
    if from < threads.len() && !threads[from] {
        lemma_first_held(threads, from + 1);
    }
}

/// An index that holds a handle, with none held before it down to `from`, is
/// the one that `first_held` finds.
pub proof fn lemma_first_held_is(threads: Seq<bool>, from: int, at: int)
    requires
        0 <= from <= at <= threads.len(),
        at < threads.len() ==> threads[at],
        forall|j: int| from <= j < at ==> !threads[j],
    ensures
        first_held(threads, from) == at,
    decreases at - from,
{
    if from < at {
        lemma_first_held_is(threads, from + 1, at);
    }
}

/// What is to become of a submitted job.
pub enum Submission<'a, S, J> {
    /// The pool still holds its producer handle: send the job through it.
    Forward { sender: &'a S, job: J },
    /// The pool has given up its producer handle: the job is dropped, and
    /// only a diagnostic tells of it.
    Rejected { job: J, note: Diagnostic },
}

/// A fixed set of workers and the producer handle of the queue that feeds
/// them. `S` is the producer handle and `H` the handle of a worker's thread;
/// the pool keeps both without looking inside.
pub struct ThreadPool<S, H> {
    workers: Vec<Worker<H>>,
    sender: Option<S>,
}

impl<S, H> View for ThreadPool<S, H> {
    type V = PoolView;

    open spec fn view(&self) -> PoolView {
        PoolView {
            holds_sender: self.sender().is_some(),
            threads: Seq::new(self.workers().len(), |i: int| self.workers()[i].thread().is_some()),
        }
    }
}

impl<S, H> ThreadPool<S, H> {
    /// The workers, in construction order.
    pub closed spec fn workers(&self) -> Seq<Worker<H>> {
        self.workers@
    }

    /// The producer handle, while the pool holds it.
    pub closed spec fn sender(&self) -> Option<S> {
        self.sender
    }

    /// The pool's invariant: there is at least one worker, and each worker's
    /// id is its place in construction order.
    pub open spec fn wf(&self) -> bool {
        &&& self.workers().len() > 0
        &&& forall|i: int| 0 <= i < self.workers().len() ==> (#[trigger] self.workers()[i]).id() == i
    }

    /// Whether shutdown has begun: the producer handle has been given up.
    pub open spec fn spec_is_shut_down(&self) -> bool {
        self.sender().is_none()
    }

    /// Whether every worker's thread has been reclaimed.
    pub open spec fn spec_is_reclaimed(&self) -> bool {
        forall|i: int| 0 <= i < self.workers().len() ==> (#[trigger] self.workers()[i]).thread().is_none()
    }

    /// Builds a pool of `size` workers around the producer handle `sender`.
    /// Worker `id` gets the thread that `spawn(id)` starts, for each id from
    /// zero up to `size`, in that order. A pool of no workers is never built:
    /// the caller has to rule it out before anything is started.
    pub fn new<F>(size: usize, sender: S, spawn: F) -> (pool: Self) where F: Fn(usize) -> H
        requires
            size > 0,
            forall|id: usize| id < size ==> call_requires(spawn, (id,)),
        ensures
            pool.wf(),
            pool@ == PoolView::fresh(size as nat),
            pool.workers().len() == size,
            pool.sender() == Some(sender),
            forall|i: int|
                0 <= i < size ==> (#[trigger] pool.workers()[i]).thread().is_some() && call_ensures(
                    spawn,
                    (i as usize,),
                    pool.workers()[i].thread().unwrap(),
                ),
    {
        let mut workers: Vec<Worker<H>> = Vec::with_capacity(size);
        let mut id: usize = 0;
        while id < size
            invariant
                id <= size,
                workers@.len() == id,
                forall|id: usize| id < size ==> call_requires(spawn, (id,)),
                forall|i: int| 0 <= i < id ==> (#[trigger] workers@[i]).id() == i,
                forall|i: int|
                    0 <= i < id ==> (#[trigger] workers@[i]).thread().is_some() && call_ensures(
                        spawn,
                        (i as usize,),
                        workers@[i].thread().unwrap(),
                    ),
            decreases size - id,
        {
            let thread = spawn(id);
            workers.push(Worker::new(id, thread));
            id = id + 1;
        }
        let pool = ThreadPool { workers, sender: Some(sender) };
        assert(pool@.threads =~= PoolView::fresh(size as nat).threads);
        pool
    }

    /// The number of workers, fixed at construction.
    pub fn size(&self) -> (n: usize)
        ensures
            n == self.workers().len(),
    {
        self.workers.len()
    }

    /// Whether shutdown has begun.
    #[verifier::when_used_as_spec(spec_is_shut_down)]
    pub fn is_shut_down(&self) -> (b: bool)
        ensures
            b == self.spec_is_shut_down(),
    {
        self.sender.is_none()
    }

    /// Decides what becomes of a submitted job. While the pool holds its
    /// producer handle the job is to be sent through it, untouched. Once
    /// shutdown has begun the job is rejected: it will never run, and the
    /// caller learns of it through the diagnostic alone. The pool itself is
    /// never changed by a submission.
    pub fn execute<J>(&self, job: J) -> (submission: Submission<'_, S, J>)
        ensures
            submission is Forward <==> self@.holds_sender,
            match submission {
                Submission::Forward { sender, job: forwarded } => self.sender() == Some(*sender)
                    && forwarded == job,
                Submission::Rejected { job: rejected, note } => self.sender().is_none() && rejected
                    == job && note == Diagnostic::PoolShutDown,
            },
    {
        match &self.sender {
            Some(sender) => Submission::Forward { sender, job },
            None => Submission::Rejected { job, note: Diagnostic::PoolShutDown },
        }
    }

    /// Begins shutdown: hands out the producer handle for the caller to drop,
    /// which closes the queue. Only the first call finds a handle; any later
    /// call finds none and changes nothing.
    pub fn relinquish_sender(&mut self) -> (sender: Option<S>)
        ensures
            sender == old(self).sender(),
            final(self).sender().is_none(),
            final(self).workers() == old(self).workers(),
            final(self)@ == old(self)@.relinquish(),
            old(self).wf() ==> final(self).wf(),
    {
        self.sender.take()
    }

    /// Hands out the next thread for the caller to wait on: that of the first
    /// worker, in construction order, whose thread has not been reclaimed,
    /// together with that worker's id. The worker keeps its id and loses its
    /// handle; every other worker is left as it was. `None` tells that no
    /// thread is left to wait on.
    pub fn reclaim_next(&mut self) -> (next: Option<Reclaimed<H>>)
        ensures
            old(self).wf() ==> final(self).wf(),
            final(self).sender() == old(self).sender(),
            final(self).workers().len() == old(self).workers().len(),
            final(self)@ == old(self)@.reclaim(),
            next is Some <==> old(self)@.next_reclaim() < old(self)@.size(),
            match next {
                Some(reclaimed) => {
                    let id = old(self)@.next_reclaim();
                    &&& 0 <= id < old(self).workers().len()
                    &&& reclaimed.worker == old(self).workers()[id].id()
                    &&& old(self).workers()[id].thread() == Some(reclaimed.thread)
                    &&& reclaimed.note == Diagnostic::ShuttingDown { worker: reclaimed.worker }
                    &&& forall|j: int| 0 <= j < id ==> (#[trigger] old(self).workers()[j]).thread().is_none()
                    &&& final(self).workers()[id].thread().is_none()
                    &&& final(self).workers()[id].id() == old(self).workers()[id].id()
                    &&& forall|j: int|
                        0 <= j < old(self).workers().len() && j != id ==> #[trigger] final(self).workers()[j]
                            == old(self).workers()[j]
                },
                None => old(self).is_reclaimed() && final(self).workers() == old(self).workers(),
            },
    {
        let mut i: usize = 0;
        while i < self.workers.len()
            invariant
                i <= self.workers@.len(),
                *self == *old(self),
                forall|j: int| 0 <= j < i ==> (#[trigger] self.workers@[j]).thread().is_none(),
            decreases self.workers@.len() - i,
        {
            if self.workers[i].has_thread() {
                let worker = self.workers[i].id();
                let thread = self.workers[i].take_thread();
                match thread {
                    Some(thread) => {
                        proof {
                            lemma_first_held_is(old(self)@.threads, 0, i as int);
                            assert(self@.threads =~= old(self)@.threads.update(i as int, false));
                        }
                        return Some(
                            Reclaimed { worker, thread, note: Diagnostic::ShuttingDown { worker } },
                        );
                    },
                    None => {},
                }
            }
            i = i + 1;
        }
        proof {
            lemma_first_held_is(self@.threads, 0, self@.threads.len() as int);
        }
        None
    }

    /// Whether every worker's thread has been reclaimed.
    #[verifier::when_used_as_spec(spec_is_reclaimed)]
    pub fn is_reclaimed(&self) -> (b: bool)
        ensures
            b == self.spec_is_reclaimed(),
    {
        let mut i: usize = 0;
        while i < self.workers.len()
            invariant
                i <= self.workers@.len(),
                forall|j: int| 0 <= j < i ==> (#[trigger] self.workers@[j]).thread().is_none(),
            decreases self.workers@.len() - i,
        {
            if self.workers[i].has_thread() {
                return false;
            }
            i = i + 1;
        }
        true
    }
}

/// A thread handed out by teardown, with the worker it belongs to and the
/// event that announces the wait.
pub struct Reclaimed<H> {
    /// The id of the worker whose thread this is.
    pub worker: usize,
    /// The handle to wait on.
    pub thread: H,
    /// The event to record before the wait begins.
    pub note: Diagnostic,
}

/// What a send through the producer handle leaves to report: nothing when the
/// queue took the job, a failed send when it handed the job back because no
/// receiving end was left.
pub fn send_note<J>(result: &Result<(), J>) -> (note: Option<Diagnostic>)
    ensures
        note == (if result.is_ok() {
            None
        } else {
            Some(Diagnostic::SendFailed)
        }),
{
    match result {
        Ok(_) => None,
        Err(_) => Some(Diagnostic::SendFailed),
    }
}

/// What the end of a wait on worker `worker`'s thread leaves to report:
/// nothing when the thread ended cleanly, a failed join when it ended
/// abnormally. Either way teardown goes on to the next worker.
pub fn join_note(worker: usize, clean: bool) -> (note: Option<Diagnostic>)
    ensures
        note == (if clean {
            None
        } else {
            Some(Diagnostic::JoinFailed { worker })
        }),
{
    if clean {
        None
    } else {
        Some(Diagnostic::JoinFailed { worker })
    }
}

} // verus!
