use rust_mini_web_server::diagnostic::Diagnostic;
use rust_mini_web_server::pool::{join_note, send_note, Submission};
use rust_mini_web_server::ThreadPool;
use std::cell::RefCell;

fn thread_name(id: usize) -> String {
    format!("thread-{id}")
}

#[test]
fn new_starts_one_thread_per_worker_in_id_order() {
    let spawned = RefCell::new(Vec::new());
    let pool: ThreadPool<&str, String> = ThreadPool::new(4, "sender", |id| {
        spawned.borrow_mut().push(id);
        thread_name(id)
    });
    assert_eq!(*spawned.borrow(), vec![0, 1, 2, 3]);
    assert_eq!(pool.size(), 4);
    assert!(!pool.is_shut_down());
    assert!(!pool.is_reclaimed());
}

#[test]
fn a_pool_of_one_worker_is_the_smallest() {
    let mut pool: ThreadPool<u8, String> = ThreadPool::new(1, 0, thread_name);
    assert_eq!(pool.size(), 1);
    let reclaimed = pool.reclaim_next().expect("the one worker has a thread");
    assert_eq!(reclaimed.worker, 0);
    assert_eq!(reclaimed.thread, "thread-0");
    assert!(pool.reclaim_next().is_none());
}

#[test]
fn execute_forwards_the_job_while_the_sender_is_held() {
    let pool: ThreadPool<&str, String> = ThreadPool::new(2, "sender", thread_name);
    match pool.execute(17u32) {
        Submission::Forward { sender, job } => {
            assert_eq!(*sender, "sender");
            assert_eq!(job, 17);
        },
        Submission::Rejected { .. } => panic!("a live pool must forward"),
    }
    assert!(!pool.is_shut_down());
    assert_eq!(pool.size(), 2);
}

#[test]
fn execute_after_shutdown_rejects_the_job_and_reports_it() {
    let mut pool: ThreadPool<&str, String> = ThreadPool::new(2, "sender", thread_name);
    assert_eq!(pool.relinquish_sender(), Some("sender"));
    assert!(pool.is_shut_down());
    match pool.execute(17u32) {
        Submission::Rejected { job, note } => {
            assert_eq!(job, 17);
            assert_eq!(note, Diagnostic::PoolShutDown);
        },
        Submission::Forward { .. } => panic!("a pool that shut down must not forward"),
    }
    assert_eq!(pool.size(), 2);
    assert!(!pool.is_reclaimed());
}

#[test]
fn relinquishing_twice_is_relinquishing_once() {
    let mut pool: ThreadPool<&str, String> = ThreadPool::new(3, "sender", thread_name);
    assert_eq!(pool.relinquish_sender(), Some("sender"));
    assert_eq!(pool.relinquish_sender(), None);
    assert_eq!(pool.relinquish_sender(), None);
    assert!(pool.is_shut_down());
    assert_eq!(pool.size(), 3);
    assert_eq!(pool.reclaim_next().map(|r| r.worker), Some(0));
}

#[test]
fn teardown_reclaims_every_thread_in_construction_order() {
    let mut pool: ThreadPool<&str, String> = ThreadPool::new(4, "sender", thread_name);
    drop(pool.relinquish_sender());
    let mut order = Vec::new();
    while let Some(reclaimed) = pool.reclaim_next() {
        assert_eq!(reclaimed.note, Diagnostic::ShuttingDown { worker: reclaimed.worker });
        assert_eq!(reclaimed.thread, thread_name(reclaimed.worker));
        order.push(reclaimed.worker);
    }
    assert_eq!(order, vec![0, 1, 2, 3]);
    assert!(pool.is_reclaimed());
    assert!(pool.reclaim_next().is_none());
    assert_eq!(pool.size(), 4);
}

#[test]
fn reclaiming_does_not_touch_the_sender() {
    let mut pool: ThreadPool<&str, String> = ThreadPool::new(2, "sender", thread_name);
    assert!(pool.reclaim_next().is_some());
    assert!(!pool.is_shut_down());
    assert!(matches!(pool.execute(1u8), Submission::Forward { .. }));
    assert!(pool.reclaim_next().is_some());
    assert!(pool.is_reclaimed());
    assert_eq!(pool.relinquish_sender(), Some("sender"));
}

#[test]
fn a_failed_join_is_reported_and_a_clean_one_is_not() {
    assert_eq!(join_note(2, true), None);
    assert_eq!(join_note(2, false), Some(Diagnostic::JoinFailed { worker: 2 }));
}

#[test]
fn a_failed_join_does_not_stop_the_remaining_joins() {
    let mut pool: ThreadPool<(), bool> = ThreadPool::new(3, (), |id| id != 1);
    drop(pool.relinquish_sender());
    let mut notes = Vec::new();
    while let Some(reclaimed) = pool.reclaim_next() {
        notes.push(reclaimed.note);
        if let Some(note) = join_note(reclaimed.worker, reclaimed.thread) {
            notes.push(note);
        }
    }
    assert_eq!(
        notes,
        vec![
            Diagnostic::ShuttingDown { worker: 0 },
            Diagnostic::ShuttingDown { worker: 1 },
            Diagnostic::JoinFailed { worker: 1 },
            Diagnostic::ShuttingDown { worker: 2 },
        ]
    );
    assert!(pool.is_reclaimed());
}

#[test]
fn a_send_that_failed_is_reported_and_one_that_went_through_is_not() {
    assert_eq!(send_note::<u32>(&Ok(())), None);
    assert_eq!(send_note(&Err(3u32)), Some(Diagnostic::SendFailed));
}
