use rust_mini_web_server::diagnostic::Diagnostic;
use rust_mini_web_server::queue::Received;
use rust_mini_web_server::worker::{Access, Directive, Worker, WorkerLoop, WorkerState};

#[test]
fn a_new_loop_is_running() {
    let worker = WorkerLoop::new(3);
    assert_eq!(worker.id(), 3);
    assert_eq!(worker.state(), WorkerState::Running);
}

#[test]
fn a_job_moves_the_loop_to_executing_and_back() {
    let mut worker = WorkerLoop::new(2);
    let (directive, note) = worker.on_pull(Access::Granted(Received::Job(41u32)));
    assert!(matches!(directive, Directive::Run(41)));
    assert_eq!(note, Some(Diagnostic::JobAcquired { worker: 2 }));
    assert_eq!(worker.state(), WorkerState::Executing);
    worker.on_job_done();
    assert_eq!(worker.state(), WorkerState::Running);
    assert_eq!(worker.id(), 2);
}

#[test]
fn an_empty_queue_keeps_the_loop_running() {
    let mut worker = WorkerLoop::new(0);
    let (directive, note) = worker.on_pull(Access::<u32>::Granted(Received::Empty));
    assert!(matches!(directive, Directive::Wait));
    assert_eq!(note, None);
    assert_eq!(worker.state(), WorkerState::Running);
}

#[test]
fn the_closed_signal_ends_the_loop() {
    let mut worker = WorkerLoop::new(1);
    let (directive, note) = worker.on_pull(Access::<u32>::Granted(Received::Closed));
    assert!(matches!(directive, Directive::Stop));
    assert_eq!(note, Some(Diagnostic::Disconnected { worker: 1 }));
    assert_eq!(worker.state(), WorkerState::Terminated);
}

#[test]
fn an_access_failure_ends_the_loop_without_retry() {
    let mut worker = WorkerLoop::new(7);
    let (directive, note) = worker.on_pull(Access::<u32>::Failed);
    assert!(matches!(directive, Directive::Stop));
    assert_eq!(note, Some(Diagnostic::AccessFailed { worker: 7 }));
    assert_eq!(worker.state(), WorkerState::Terminated);
}

#[test]
fn a_loop_runs_several_jobs_before_it_ends() {
    let mut worker = WorkerLoop::new(0);
    let mut ran = Vec::new();
    for job in [10u32, 20, 30] {
        match worker.on_pull(Access::Granted(Received::Job(job))).0 {
            Directive::Run(job) => ran.push(job),
            _ => panic!("a received job must be run"),
        }
        worker.on_job_done();
    }
    assert_eq!(ran, vec![10, 20, 30]);
    assert!(matches!(worker.on_pull(Access::<u32>::Granted(Received::Closed)).0, Directive::Stop));
    assert_eq!(worker.state(), WorkerState::Terminated);
}

#[test]
fn a_worker_record_gives_its_thread_out_once() {
    let mut worker = Worker::new(5, "handle");
    assert_eq!(worker.id(), 5);
    assert!(worker.has_thread());
    assert_eq!(worker.take_thread(), Some("handle"));
    assert!(!worker.has_thread());
    assert_eq!(worker.take_thread(), None);
    assert_eq!(worker.id(), 5);
}

#[test]
fn failures_are_told_apart_from_lifecycle_notes() {
    assert!(!Diagnostic::JobAcquired { worker: 0 }.is_failure());
    assert!(!Diagnostic::Disconnected { worker: 0 }.is_failure());
    assert!(!Diagnostic::ShuttingDown { worker: 0 }.is_failure());
    assert!(Diagnostic::AccessFailed { worker: 0 }.is_failure());
    assert!(Diagnostic::JoinFailed { worker: 0 }.is_failure());
    assert!(Diagnostic::SendFailed.is_failure());
    assert!(Diagnostic::PoolShutDown.is_failure());
}

#[test]
fn a_returning_job_moves_only_an_executing_loop() {
    let mut idle = WorkerLoop::new(4);
    idle.on_job_done();
    assert_eq!(idle.state(), WorkerState::Running);

    let mut ended = WorkerLoop::new(4);
    ended.on_pull(Access::<u32>::Failed);
    ended.on_job_done();
    assert_eq!(ended.state(), WorkerState::Terminated);
    assert_eq!(ended.id(), 4);
}
