//! The pool as a whole: one queue, one pool and the loops of its workers,
//! taking one step at a time in any order. The laws of delivery are stated
//! and proved here, over the same spec functions that the contracts of the
//! queue, the worker loop and the pool are written in.

use crate::pool::{lemma_first_held, PoolView};
use crate::queue::{QueueView, Received};
use crate::worker::{Access, WorkerState};
use vstd::prelude::*;

verus! {

/// The state of the whole system.
pub struct System<J> {
    /// The pool, as its owner sees it.
    pub pool: PoolView,
    /// The shared queue.
    pub queue: QueueView<J>,
    /// The state of each worker's loop, by worker id.
    pub loops: Seq<WorkerState>,
    /// For each worker, whether its loop ended on an access failure.
    pub faulted: Seq<bool>,
    /// For each worker, whether its thread died while it was running a job.
    pub aborted: Seq<bool>,
    /// Every job ever passed to `execute`, in submission order.
    pub submitted: Seq<J>,
    /// The jobs that the queue took, in the order it took them.
    pub accepted: Seq<J>,
    /// For each accepted job, its place in `submitted`.
    pub accepted_at: Seq<int>,
    /// Every hand-over of a job to a worker, as (worker id, job), in order.
    pub started: Seq<(int, J)>,
}

/// One step of the system.
pub enum Step<J> {
    /// A caller submits a job: `ThreadPool::execute` decides, and on a
    /// forward `JobQueue::send` is tried.
    Submit(J),
    /// A running worker acquires the receiving end and pulls from the queue:
    /// `JobQueue::receive`, whose answer goes to `WorkerLoop::on_pull`.
    Pull(int),
    /// A running worker fails to acquire the receiving end, and tells
    /// `WorkerLoop::on_pull` so.
    Fault(int),
    /// The job that a worker was running returns: `WorkerLoop::on_job_done`.
    Finish(int),
    /// The job that a worker was running takes the worker's thread down with it.
    Abort(int),
    /// The pool's owner begins shutdown: `ThreadPool::relinquish_sender`,
    /// and the handle that comes out is dropped, which closes the queue.
    Relinquish,
    /// The pool's owner takes the next thread with `ThreadPool::reclaim_next`
    /// and waits on it. The wait ends only once that worker's loop has ended.
    Reclaim,
}

/// Whether every loop has ended.
pub open spec fn all_terminated(loops: Seq<WorkerState>) -> bool {
    forall|w: int| 0 <= w < loops.len() ==> loops[w] == WorkerState::Terminated
}

/// The queue once the loops stand at `loops`: the receiving end, which the
/// workers share, is gone as soon as the last of them has ended.
pub open spec fn settle<J>(queue: QueueView<J>, loops: Seq<WorkerState>) -> QueueView<J> {
    if all_terminated(loops) {
        queue.disconnect()
    } else {
        queue
    }
}

/// The jobs of a sequence of hand-overs.
pub open spec fn jobs<J>(started: Seq<(int, J)>) -> Seq<J> {
    Seq::new(started.len(), |i: int| started[i].1)
}

impl<J> System<J> {
    /// A pool of `size` workers just after construction: nothing submitted,
    /// every worker about to pull for the first time.
    pub open spec fn init(size: nat) -> Self {
        System {
            pool: PoolView::fresh(size),
            queue: QueueView::fresh(),
            loops: Seq::new(size, |w: int| WorkerState::Running),
            faulted: Seq::new(size, |w: int| false),
            aborted: Seq::new(size, |w: int| false),
            submitted: Seq::empty(),
            accepted: Seq::empty(),
            accepted_at: Seq::empty(),
            started: Seq::empty(),
        }
    }

    /// Whether `w` is the id of a worker that has suffered neither an access
    /// failure nor the death of its thread.
    pub open spec fn spared(self, w: int) -> bool {
        0 <= w < self.loops.len() && !self.faulted[w] && !self.aborted[w]
    }

    /// Whether `w` is the id of a worker whose loop is in `state`.
    pub open spec fn worker_in(self, w: int, state: WorkerState) -> bool {
        0 <= w < self.loops.len() && self.loops[w] == state
    }

    /// The state after `step`. A step that cannot be taken in this state
    /// leaves it unchanged.
    pub open spec fn next(self, step: Step<J>) -> Self {
        match step {
            Step::Submit(job) => {
                let taken = self.pool.holds_sender && self.queue.accepts();
                System {
                    queue: if self.pool.holds_sender {
                        self.queue.send(job)
                    } else {
                        self.queue
                    },
                    submitted: self.submitted.push(job),
                    accepted: if taken {
                        self.accepted.push(job)
                    } else {
                        self.accepted
                    },
                    accepted_at: if taken {
                        self.accepted_at.push(self.submitted.len() as int)
                    } else {
                        self.accepted_at
                    },
                    ..self
                }
            },
            Step::Pull(w) => {
                if self.worker_in(w, WorkerState::Running) {
                    let got = self.queue.received();
                    let loops = self.loops.update(w, self.loops[w].after_pull(Access::Granted(got)));
                    System {
                        queue: settle(self.queue.receive(), loops),
                        loops,
                        started: match got {
                            Received::Job(job) => self.started.push((w, job)),
                            _ => self.started,
                        },
                        ..self
                    }
                } else {
                    self
                }
            },
            Step::Fault(w) => {
                if self.worker_in(w, WorkerState::Running) {
                    let loops = self.loops.update(w, self.loops[w].after_pull(Access::<J>::Failed));
                    System {
                        queue: settle(self.queue, loops),
                        loops,
                        faulted: self.faulted.update(w, true),
                        ..self
                    }
                } else {
                    self
                }
            },
            Step::Finish(w) => {
                if self.worker_in(w, WorkerState::Executing) {
                    System { loops: self.loops.update(w, self.loops[w].after_job()), ..self }
                } else {
                    self
                }
            },
            Step::Abort(w) => {
                if self.worker_in(w, WorkerState::Executing) {
                    let loops = self.loops.update(w, WorkerState::Terminated);
                    System {
                        queue: settle(self.queue, loops),
                        loops,
                        aborted: self.aborted.update(w, true),
                        ..self
                    }
                } else {
                    self
                }
            },
            Step::Relinquish => {
                System {
                    pool: self.pool.relinquish(),
                    queue: if self.pool.holds_sender {
                        self.queue.close()
                    } else {
                        self.queue
                    },
                    ..self
                }
            },
            Step::Reclaim => {
                if self.worker_in(self.pool.next_reclaim(), WorkerState::Terminated) {
                    System { pool: self.pool.reclaim(), ..self }
                } else {
                    self
                }
            },
        }
    }

    /// The state after `steps`, taken in order.
    pub open spec fn run(self, steps: Seq<Step<J>>) -> Self
        decreases steps.len(),
    {
        if steps.len() == 0 {
            self
        } else {
            self.run(steps.drop_last()).next(steps.last())
        }
    }

    /// What holds of every state that a pool can reach.
    pub open spec fn inv(self) -> bool {
        &&& self.loops.len() > 0
        &&& self.pool.threads.len() == self.loops.len()
        &&& self.faulted.len() == self.loops.len()
        &&& self.aborted.len() == self.loops.len()
        &&& self.queue.open == self.pool.holds_sender
        &&& self.queue.connected == !all_terminated(self.loops)
        &&& self.accepted == jobs(self.started) + self.queue.items
        &&& self.accepted_at.len() == self.accepted.len()
        &&& self.accepted.len() <= self.submitted.len()
        &&& (self.accepted.len() == self.submitted.len() ==> self.accepted == self.submitted)
        &&& forall|i: int|
            0 <= i < self.accepted_at.len() ==> 0 <= #[trigger] self.accepted_at[i] < self.submitted.len()
                && self.submitted[self.accepted_at[i]] == self.accepted[i]
        &&& forall|i: int, j: int|
            0 <= i < j < self.accepted_at.len() ==> #[trigger] self.accepted_at[i] < #[trigger] self.accepted_at[j]
        &&& forall|w: int|
            #[trigger] self.spared(w) && self.loops[w] == WorkerState::Terminated ==> !self.queue.open
                && self.queue.items.len() == 0
        &&& forall|w: int|
            0 <= w < self.loops.len() && #[trigger] self.faulted[w] ==> self.loops[w]
                == WorkerState::Terminated
        &&& forall|w: int|
            0 <= w < self.loops.len() && #[trigger] self.aborted[w] ==> self.loops[w]
                == WorkerState::Terminated
        &&& forall|w: int|
            0 <= w < self.loops.len() && !#[trigger] self.pool.threads[w] ==> self.loops[w]
                == WorkerState::Terminated
        &&& forall|v: int, w: int|
            0 <= v < w < self.loops.len() && !#[trigger] self.pool.threads[w] ==> !#[trigger] self.pool.threads[v]
    }
}

/// A pool of at least one worker starts out in a state that meets the invariant.
pub proof fn lemma_init_inv<J>(size: nat)
    requires
        size > 0,
    ensures
        System::<J>::init(size).inv(),
{
    let s = System::<J>::init(size);
    assert(s.loops[0] == WorkerState::Running);
}

/// No step leads out of the invariant.
pub proof fn lemma_next_inv<J>(s: System<J>, step: Step<J>)
    requires
        s.inv(),
    ensures
        s.next(step).inv(),
{
    let t = s.next(step);
    assert(forall|w: int| #[trigger] t.spared(w) ==> s.spared(w));
    match step {
        Step::Submit(_) => {},
        Step::Pull(w) => {
            if s.worker_in(w, WorkerState::Running) {
                lemma_settled(s.queue.receive(), s.loops, t.loops, w);
                if s.queue.received() is Job {
                    assert(t.accepted =~= jobs(t.started) + t.queue.items);
                }
            }
        },
        Step::Fault(w) => {
            if s.worker_in(w, WorkerState::Running) {
                lemma_settled(s.queue, s.loops, t.loops, w);
            }
        },
        Step::Finish(w) => {
            if s.worker_in(w, WorkerState::Executing) {
                assert(t.loops[w] == WorkerState::Running);
            }
        },
        Step::Abort(w) => {
            if s.worker_in(w, WorkerState::Executing) {
                lemma_settled(s.queue, s.loops, t.loops, w);
            }
        },
        Step::Relinquish => {},
        Step::Reclaim => {
            lemma_first_held(s.pool.threads, 0);
        },
    }
}

/// After worker `w` moved, the receiving end is alive exactly while some
/// loop has not ended.
proof fn lemma_settled<J>(queue: QueueView<J>, before: Seq<WorkerState>, after: Seq<WorkerState>, w: int)
    requires
        0 <= w < before.len(),
        before[w] != WorkerState::Terminated,
        after == before.update(w, after[w]),
        queue.connected,
    ensures
        settle(queue, after).connected == !all_terminated(after),
        settle(queue, after).items == queue.items,
        settle(queue, after).open == queue.open,
{
}

/// No run leads out of the invariant.
pub proof fn lemma_run_keeps_inv<J>(s: System<J>, steps: Seq<Step<J>>)
    requires
        s.inv(),
    ensures
        s.run(steps).inv(),
    decreases steps.len(),
{
    if steps.len() > 0 {
        lemma_run_keeps_inv(s, steps.drop_last());
        lemma_next_inv(s.run(steps.drop_last()), steps.last());
    }
}

/// Every state that a pool of at least one worker reaches meets the invariant.
pub proof fn lemma_run_inv<J>(size: nat, steps: Seq<Step<J>>)
    requires
        size > 0,
    ensures
        System::<J>::init(size).run(steps).inv(),
{
    lemma_init_inv::<J>(size);
    lemma_run_keeps_inv(System::<J>::init(size), steps);
}

/// The jobs that `steps` submit, in order.
pub open spec fn submissions<J>(steps: Seq<Step<J>>) -> Seq<J>
    decreases steps.len(),
{
    if steps.len() == 0 {
        Seq::empty()
    } else {
        match steps.last() {
            Step::Submit(job) => submissions(steps.drop_last()).push(job),
            _ => submissions(steps.drop_last()),
        }
    }
}

/// Whether every submission in `steps` comes before shutdown begins.
pub open spec fn submits_before_shutdown<J>(steps: Seq<Step<J>>) -> bool {
    forall|i: int, j: int|
        0 <= i < j < steps.len() && #[trigger] steps[i] is Relinquish ==> !(#[trigger] steps[j] is Submit)
}

/// First in, first out. In every state that a pool reaches, the jobs handed
/// to workers are, in order, the first of the jobs that the queue took, and
/// the queue took them in the order in which they were submitted: of two
/// jobs that are both handed over, the one submitted first is handed over
/// first. Nothing is handed over twice and nothing is passed over.
pub proof fn lemma_delivery_is_fifo<J>(size: nat, steps: Seq<Step<J>>)
    requires
        size > 0,
    ensures
        ({
            let s = System::<J>::init(size).run(steps);
            &&& s.started.len() <= s.accepted.len() == s.accepted_at.len()
            &&& forall|i: int|
                0 <= i < s.started.len() ==> (#[trigger] s.started[i]).1 == s.accepted[i] && 0
                    <= s.accepted_at[i] < s.submitted.len() && s.accepted[i]
                    == s.submitted[s.accepted_at[i]]
            &&& forall|i: int, j: int|
                0 <= i < j < s.started.len() ==> #[trigger] s.accepted_at[i] < #[trigger] s.accepted_at[j]
        }),
{
    lemma_run_inv::<J>(size, steps);
    let s = System::<J>::init(size).run(steps);
    assert(forall|i: int| 0 <= i < s.started.len() ==> (#[trigger] s.started[i]).1 == jobs(s.started)[i]);
}

/// Teardown drains the queue. Once the producer handle is gone and every
/// thread has been waited on, every loop has ended and no job is left in
/// flight; and if at least one worker was spared, and so ended on the closed
/// signal, the queue is empty and every job that it ever took,
/// those still queued when shutdown began among them, was handed to a worker
/// exactly once, in order.
pub proof fn lemma_teardown_drains<J>(size: nat, steps: Seq<Step<J>>)
    requires
        size > 0,
        System::<J>::init(size).run(steps).pool.torn_down(),
    ensures
        ({
            let s = System::<J>::init(size).run(steps);
            &&& all_terminated(s.loops)
            &&& (exists|w: int| #[trigger] s.spared(w)) ==> s.queue.items.len() == 0 && jobs(s.started)
                == s.accepted
        }),
{
    lemma_run_inv::<J>(size, steps);
    lemma_run_size::<J>(size, steps);
    let s = System::<J>::init(size).run(steps);
    assert forall|w: int| 0 <= w < s.loops.len() implies s.loops[w] == WorkerState::Terminated by {
        assert(!s.pool.threads[w]);
    }
}

/// The number of workers never changes.
pub proof fn lemma_run_size<J>(size: nat, steps: Seq<Step<J>>)
    ensures
        System::<J>::init(size).run(steps).loops.len() == size,
        System::<J>::init(size).run(steps).pool.threads.len() == size,
        System::<J>::init(size).run(steps).faulted.len() == size,
        System::<J>::init(size).run(steps).aborted.len() == size,
    decreases steps.len(),
{
    if steps.len() > 0 {
        lemma_run_size::<J>(size, steps.drop_last());
    }
}

/// Misfortune is never undone: a worker that is spared at the end of a run
/// was spared at every point before.
pub proof fn lemma_spared_before<J>(s: System<J>, step: Step<J>, w: int)
    requires
        s.inv(),
        s.next(step).spared(w),
    ensures
        s.spared(w),
{
}

/// What a run in which nothing is submitted after shutdown began keeps true:
/// the pool has recorded exactly the submissions of the run, it holds its
/// producer handle until the run relinquishes it, and, as long as worker `w`
/// is spared, the queue has taken every job submitted.
pub proof fn lemma_orderly_run<J>(size: nat, steps: Seq<Step<J>>, w: int)
    requires
        size > 0,
        0 <= w < size,
    ensures
        ({
            let s = System::<J>::init(size).run(steps);
            &&& s.submitted == submissions(steps)
            &&& (forall|i: int| 0 <= i < steps.len() ==> !(#[trigger] steps[i] is Relinquish))
                ==> s.pool.holds_sender
            &&& submits_before_shutdown(steps) && s.spared(w) ==> s.accepted == s.submitted
        }),
    decreases steps.len(),
{
    lemma_run_size::<J>(size, steps);
    if steps.len() > 0 {
        let pre = steps.drop_last();
        let r = System::<J>::init(size).run(pre);
        let s = r.next(steps.last());
        lemma_orderly_run::<J>(size, pre, w);
        lemma_run_inv::<J>(size, pre);
        lemma_run_size::<J>(size, pre);
        if submits_before_shutdown(steps) && s.spared(w) {
            lemma_spared_before(r, steps.last(), w);
            if steps.last() is Submit {
                assert(forall|i: int| 0 <= i < pre.len() ==> !(#[trigger] pre[i] is Relinquish));
                assert(!all_terminated(r.loops));
            }
        }
    }
}

/// Every job runs exactly once. Take a pool of any size of at least one and
/// any run in which nothing is submitted after shutdown began and at least
/// one worker is spared. Once teardown is complete, the
/// jobs handed to workers are exactly the jobs submitted: as many, each one
/// once, none dropped, in submission order.
pub proof fn lemma_every_job_runs_once<J>(size: nat, steps: Seq<Step<J>>)
    requires
        size > 0,
        submits_before_shutdown(steps),
        System::<J>::init(size).run(steps).pool.torn_down(),
        exists|w: int| #[trigger] System::<J>::init(size).run(steps).spared(w),
    ensures
        jobs(System::<J>::init(size).run(steps).started) == submissions(steps),
        System::<J>::init(size).run(steps).started.len() == submissions(steps).len(),
{
    let s = System::<J>::init(size).run(steps);
    let w = choose|w: int| #[trigger] s.spared(w);
    lemma_run_size::<J>(size, steps);
    lemma_orderly_run::<J>(size, steps, w);
    lemma_teardown_drains::<J>(size, steps);
}

/// Nothing is taken after shutdown began. From a state in which the pool has
/// given up its producer handle, whatever steps follow, the pool never holds
/// the handle again and the jobs that the queue has taken stay as they are.
/// A job submitted from then on is never queued, and so never handed to a
/// worker: whatever is handed over later is one of the jobs taken before.
pub proof fn lemma_shutdown_refuses<J>(s: System<J>, steps: Seq<Step<J>>)
    requires
        s.inv(),
        !s.pool.holds_sender,
    ensures
        !s.run(steps).pool.holds_sender,
        s.run(steps).accepted == s.accepted,
        s.run(steps).started.len() <= s.accepted.len(),
        forall|i: int|
            0 <= i < s.run(steps).started.len() ==> (#[trigger] s.run(steps).started[i]).1
                == s.accepted[i],
    decreases steps.len(),
{
    if steps.len() > 0 {
        lemma_shutdown_refuses(s, steps.drop_last());
    }
    lemma_run_keeps_inv(s, steps);
    let t = s.run(steps);
    assert(forall|i: int| 0 <= i < t.started.len() ==> (#[trigger] t.started[i]).1 == jobs(t.started)[i]);
}

/// A submission after shutdown began changes nothing but the record of
/// submissions: the queue, the workers and the pool are left as they were.
pub proof fn lemma_late_submission_is_dropped<J>(s: System<J>, job: J)
    requires
        !s.pool.holds_sender,
    ensures
        s.next(Step::Submit(job)) == (System { submitted: s.submitted.push(job), ..s }),
{
}

/// An access failure is local. When worker `w` fails to acquire the receiving
/// end, only its own loop ends. The queue keeps its jobs and stays as open as
/// it was, every other loop stands where it stood, a job submitted next is
/// still taken while the pool holds its producer handle, and another running
/// worker `v` that pulls next is handed the oldest queued job.
pub proof fn lemma_fault_is_local<J>(s: System<J>, w: int, v: int, job: J)
    requires
        s.inv(),
        s.worker_in(w, WorkerState::Running),
        0 <= v < s.loops.len(),
        v != w,
    ensures
        ({
            let t = s.next(Step::Fault(w));
            &&& t.loops[w] == WorkerState::Terminated
            &&& t.loops[v] == s.loops[v]
            &&& t.queue.items == s.queue.items
            &&& t.queue.open == s.queue.open
            &&& t.accepted == s.accepted
            &&& t.started == s.started
            &&& t.pool == s.pool
            &&& s.loops[v] != WorkerState::Terminated && s.pool.holds_sender ==> t.next(
                Step::Submit(job),
            ).accepted == s.accepted.push(job)
            &&& s.loops[v] == WorkerState::Running && s.queue.items.len() > 0 ==> t.next(
                Step::Pull(v),
            ).started == s.started.push((v, s.queue.items[0]))
        }),
{
    if s.loops[v] != WorkerState::Terminated {
        assert(s.next(Step::Fault(w)).loops[v] != WorkerState::Terminated);
    }
}

/// The death of a thread is local. When the job that worker `w` is running
/// takes the worker's thread down, only that worker is lost. It counts as
/// ended, so that teardown can reclaim it like any other; the queue keeps its
/// jobs, every other loop stands where it stood, and another running worker
/// `v` that pulls next is handed the oldest queued job.
pub proof fn lemma_abort_is_local<J>(s: System<J>, w: int, v: int)
    requires
        s.inv(),
        s.worker_in(w, WorkerState::Executing),
        0 <= v < s.loops.len(),
        v != w,
    ensures
        ({
            let t = s.next(Step::Abort(w));
            &&& t.loops[w] == WorkerState::Terminated
            &&& t.loops[v] == s.loops[v]
            &&& t.queue.items == s.queue.items
            &&& t.queue.open == s.queue.open
            &&& t.accepted == s.accepted
            &&& t.started == s.started
            &&& t.pool == s.pool
            &&& s.loops[v] == WorkerState::Running && s.queue.items.len() > 0 ==> t.next(
                Step::Pull(v),
            ).started == s.started.push((v, s.queue.items[0]))
        }),
{
}

/// A loop that has ended stays ended: no step brings a worker back.
pub proof fn lemma_terminated_is_final<J>(s: System<J>, step: Step<J>, w: int)
    requires
        s.worker_in(w, WorkerState::Terminated),
    ensures
        s.next(step).worker_in(w, WorkerState::Terminated),
{
}

/// Teardown waits for every worker, in construction order. In every state
/// that a pool reaches, a worker whose thread has been reclaimed has ended
/// its loop, and the threads reclaimed so far are those of the first workers
/// in construction order, with none skipped.
pub proof fn lemma_reclaimed_have_ended<J>(size: nat, steps: Seq<Step<J>>)
    requires
        size > 0,
    ensures
        ({
            let s = System::<J>::init(size).run(steps);
            &&& s.pool.threads.len() == size
            &&& s.loops.len() == size
            &&& forall|w: int|
                0 <= w < size && !#[trigger] s.pool.threads[w] ==> s.loops[w]
                    == WorkerState::Terminated
            &&& forall|w: int|
                0 <= w < size && !#[trigger] s.pool.threads[w] ==> s.pool.next_reclaim() > w
            &&& forall|w: int| 0 <= w < s.pool.next_reclaim() ==> !#[trigger] s.pool.threads[w]
        }),
{
    lemma_run_inv::<J>(size, steps);
    lemma_run_size::<J>(size, steps);
    let s = System::<J>::init(size).run(steps);
    lemma_first_held(s.pool.threads, 0);
}

} // verus!
