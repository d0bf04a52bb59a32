use noobwebserver::{Action, JobOutcome, ThreadPool, WorkerState};
use std::cell::Cell;
use std::rc::Rc;

type Job = Box<dyn FnOnce()>;

fn counting_job(counter: &Rc<Cell<u64>>) -> Job {
    let counter = Rc::clone(counter);
    Box::new(move || counter.set(counter.get() + 1))
}

fn states(pool: &ThreadPool<Job>) -> Vec<WorkerState> {
    (0..pool.size()).map(|id| pool.worker(id).unwrap().state()).collect()
}

/// Lets the workers take turns, each running what it is given, until a
/// whole round passes in which none of them had anything to do.
fn run_until_quiet(pool: &mut ThreadPool<Job>) {
    loop {
        let mut progressed = false;
        for id in 0..pool.size() {
            match pool.dispatch(id) {
                Action::Run(job) => {
                    job();
                    assert!(pool.complete(id, JobOutcome::Returned));
                    progressed = true;
                }
                Action::Stop => {}
                Action::Wait => {}
            }
        }
        if !progressed {
            break;
        }
    }
}

fn run_counter_jobs(workers: usize, jobs: u64) {
    let counter = Rc::new(Cell::new(0u64));
    let mut pool: ThreadPool<Job> = ThreadPool::new(workers);
    for _ in 0..jobs {
        pool.submit(counting_job(&counter));
    }
    assert_eq!(pool.queued() as u64, jobs);
    run_until_quiet(&mut pool);
    assert_eq!(counter.get(), jobs);
    assert_eq!(pool.queued(), 0);
    assert_eq!(states(&pool), vec![WorkerState::Idle; workers]);
}

#[test]
fn new_pool_has_the_workers_asked_for() {
    for size in 1..=16usize {
        let pool: ThreadPool<u32> = ThreadPool::new(size);
        assert_eq!(pool.size(), size);
        for id in 0..size {
            let worker = pool.worker(id).unwrap();
            assert_eq!(worker.id(), id);
            assert_eq!(worker.state(), WorkerState::Idle);
        }
        assert!(pool.worker(size).is_none());
        assert_eq!(pool.queued(), 0);
        assert!(!pool.is_shutting_down());
        assert!(!pool.is_terminated());
    }
}

#[test]
fn every_worker_of_the_pool_takes_a_job() {
    for size in 1..=8usize {
        let mut pool: ThreadPool<usize> = ThreadPool::new(size);
        for job in 0..size + 3 {
            pool.submit(job);
        }
        let mut busy = Vec::new();
        for id in 0..size {
            assert_eq!(pool.dispatch(id), Action::Run(id));
            busy.push(pool.worker(id).unwrap().id());
        }
        busy.sort();
        busy.dedup();
        assert_eq!(busy.len(), size);
        for id in 0..size {
            assert_eq!(pool.worker(id).unwrap().state(), WorkerState::Executing);
        }
        assert_eq!(pool.dispatch(size), Action::Stop);
        assert_eq!(pool.queued(), 3);
    }
}

#[test]
fn try_new_rejects_an_empty_pool() {
    assert!(ThreadPool::<u32>::try_new(0).is_none());
}

#[test]
fn try_new_makes_a_pool_of_any_other_size() {
    let pool = ThreadPool::<u32>::try_new(1).unwrap();
    assert_eq!(pool.size(), 1);
    let pool = ThreadPool::<u32>::try_new(4).unwrap();
    assert_eq!(pool.size(), 4);
    assert_eq!(pool.worker(3).unwrap().state(), WorkerState::Idle);
}

#[test]
fn no_jobs_leave_the_counter_at_zero() {
    run_counter_jobs(4, 0);
}

#[test]
fn one_job_runs_once() {
    run_counter_jobs(4, 1);
}

#[test]
fn a_hundred_jobs_run_once_each() {
    run_counter_jobs(4, 100);
}

#[test]
fn ten_thousand_jobs_run_once_each() {
    run_counter_jobs(4, 10_000);
}

#[test]
fn a_single_worker_runs_every_job() {
    run_counter_jobs(1, 100);
}

#[test]
fn jobs_are_handed_out_in_the_order_submitted() {
    let mut pool: ThreadPool<u32> = ThreadPool::new(3);
    for job in [10, 20, 30, 40, 50] {
        pool.submit(job);
    }
    assert_eq!(pool.dispatch(2), Action::Run(10));
    assert_eq!(pool.dispatch(0), Action::Run(20));
    assert!(pool.complete(2, JobOutcome::Returned));
    assert_eq!(pool.dispatch(2), Action::Run(30));
    assert_eq!(pool.dispatch(1), Action::Run(40));
    assert!(pool.complete(0, JobOutcome::Returned));
    assert_eq!(pool.dispatch(0), Action::Run(50));
    assert_eq!(pool.queued(), 0);
}

#[test]
fn a_blocked_worker_does_not_hold_the_others_up() {
    let size = 4;
    let quick_done = Rc::new(Cell::new(0u64));
    let mut pool: ThreadPool<Job> = ThreadPool::new(size);
    let blocking: Job = Box::new(|| {});
    pool.submit(blocking);
    for _ in 0..size - 1 {
        pool.submit(counting_job(&quick_done));
    }
    // Worker 0 takes the long job and does not come back while the others work.
    let long_job = match pool.dispatch(0) {
        Action::Run(job) => job,
        other => panic!("expected a job, got {}", describe(&other)),
    };
    for id in 1..size {
        match pool.dispatch(id) {
            Action::Run(job) => {
                job();
                assert!(pool.complete(id, JobOutcome::Returned));
            }
            other => panic!("expected a job, got {}", describe(&other)),
        }
    }
    assert_eq!(quick_done.get(), (size - 1) as u64);
    assert_eq!(pool.worker(0).unwrap().state(), WorkerState::Executing);
    assert_eq!(pool.queued(), 0);
    long_job();
    assert!(pool.complete(0, JobOutcome::Returned));
    assert_eq!(states(&pool), vec![WorkerState::Idle; size]);
}

fn describe(action: &Action<Job>) -> &'static str {
    match action {
        Action::Run(_) => "a job",
        Action::Wait => "wait",
        Action::Stop => "stop",
    }
}

#[test]
fn an_idle_worker_waits_on_an_empty_queue() {
    let mut pool: ThreadPool<u32> = ThreadPool::new(2);
    assert_eq!(pool.dispatch(0), Action::Wait);
    assert_eq!(pool.dispatch(1), Action::Wait);
    assert_eq!(pool.worker(0).unwrap().state(), WorkerState::Idle);
    pool.submit(5);
    assert_eq!(pool.dispatch(1), Action::Run(5));
    assert_eq!(pool.dispatch(0), Action::Wait);
}

#[test]
fn a_worker_that_runs_a_job_is_given_no_other() {
    let mut pool: ThreadPool<u32> = ThreadPool::new(1);
    pool.submit(1);
    pool.submit(2);
    assert_eq!(pool.dispatch(0), Action::Run(1));
    assert_eq!(pool.dispatch(0), Action::Wait);
    assert_eq!(pool.queued(), 1);
    assert_eq!(pool.worker(0).unwrap().state(), WorkerState::Executing);
    assert!(pool.complete(0, JobOutcome::Returned));
    assert_eq!(pool.dispatch(0), Action::Run(2));
}

#[test]
fn a_stranger_is_told_to_stop() {
    let mut pool: ThreadPool<u32> = ThreadPool::new(2);
    pool.submit(1);
    assert_eq!(pool.dispatch(2), Action::Stop);
    assert_eq!(pool.dispatch(usize::MAX), Action::Stop);
    assert_eq!(pool.queued(), 1);
    assert!(!pool.complete(2, JobOutcome::Returned));
}

#[test]
fn a_report_without_a_job_changes_nothing() {
    let mut pool: ThreadPool<u32> = ThreadPool::new(2);
    pool.submit(1);
    assert!(!pool.complete(0, JobOutcome::Returned));
    assert_eq!(pool.worker(0).unwrap().state(), WorkerState::Idle);
    assert_eq!(pool.dispatch(0), Action::Run(1));
    assert!(pool.complete(0, JobOutcome::Returned));
    assert!(!pool.complete(0, JobOutcome::Returned));
}

#[test]
fn a_failed_job_does_not_cost_a_worker() {
    let mut pool: ThreadPool<u32> = ThreadPool::new(2);
    pool.submit(1);
    pool.submit(2);
    assert_eq!(pool.dispatch(0), Action::Run(1));
    assert!(pool.complete(0, JobOutcome::Failed));
    assert_eq!(pool.worker(0).unwrap().state(), WorkerState::Idle);
    assert_eq!(pool.size(), 2);
    assert_eq!(pool.dispatch(0), Action::Run(2));
    assert!(pool.complete(0, JobOutcome::Returned));
    assert!(!pool.is_terminated());
}

#[test]
fn shutdown_sends_one_signal_for_each_worker() {
    for size in 1..=6usize {
        let mut pool: ThreadPool<u32> = ThreadPool::new(size);
        pool.submit(1);
        pool.shutdown();
        assert!(pool.is_shutting_down());
        assert_eq!(pool.queued(), 1 + size);
        assert_eq!(pool.dispatch(0), Action::Run(1));
        assert!(pool.complete(0, JobOutcome::Returned));
        for id in 0..size {
            assert!(!pool.is_terminated());
            assert_eq!(pool.dispatch(id), Action::Stop);
            assert_eq!(pool.worker(id).unwrap().state(), WorkerState::Stopped);
        }
        assert!(pool.is_terminated());
        assert_eq!(pool.queued(), 0);
    }
}

#[test]
fn shutdown_lets_queued_jobs_run_first() {
    let counter = Rc::new(Cell::new(0u64));
    let mut pool: ThreadPool<Job> = ThreadPool::new(3);
    for _ in 0..25 {
        pool.submit(counting_job(&counter));
    }
    pool.shutdown();
    run_until_quiet(&mut pool);
    assert_eq!(counter.get(), 25);
    assert!(pool.is_terminated());
    assert_eq!(states(&pool), vec![WorkerState::Stopped; 3]);
    assert_eq!(pool.queued(), 0);
}

#[test]
fn shutdown_is_not_over_while_a_job_runs() {
    let mut pool: ThreadPool<u32> = ThreadPool::new(2);
    pool.submit(1);
    assert_eq!(pool.dispatch(0), Action::Run(1));
    pool.shutdown();
    assert_eq!(pool.dispatch(1), Action::Stop);
    assert!(!pool.is_terminated());
    assert_eq!(pool.dispatch(0), Action::Wait);
    assert!(!pool.is_terminated());
    assert!(pool.complete(0, JobOutcome::Returned));
    assert!(!pool.is_terminated());
    assert_eq!(pool.dispatch(0), Action::Stop);
    assert!(pool.is_terminated());
}

#[test]
fn a_stopped_worker_stays_stopped() {
    let mut pool: ThreadPool<u32> = ThreadPool::new(2);
    pool.shutdown();
    assert_eq!(pool.dispatch(0), Action::Stop);
    assert_eq!(pool.queued(), 1);
    assert_eq!(pool.dispatch(0), Action::Stop);
    assert_eq!(pool.queued(), 1);
    assert_eq!(pool.worker(0).unwrap().state(), WorkerState::Stopped);
    assert!(!pool.complete(0, JobOutcome::Returned));
    assert_eq!(pool.dispatch(1), Action::Stop);
    assert!(pool.is_terminated());
}

#[test]
fn a_second_shutdown_changes_nothing() {
    let mut pool: ThreadPool<u32> = ThreadPool::new(3);
    pool.submit(1);
    pool.shutdown();
    assert_eq!(pool.queued(), 4);
    pool.shutdown();
    assert_eq!(pool.queued(), 4);
    assert_eq!(pool.dispatch(0), Action::Run(1));
    pool.shutdown();
    assert_eq!(pool.queued(), 3);
}

#[test]
fn a_job_submitted_after_shutdown_is_never_run() {
    let counter = Rc::new(Cell::new(0u64));
    let mut pool: ThreadPool<Job> = ThreadPool::new(2);
    pool.submit(counting_job(&counter));
    pool.shutdown();
    pool.submit(counting_job(&counter));
    assert_eq!(pool.queued(), 4);
    run_until_quiet(&mut pool);
    assert!(pool.is_terminated());
    assert_eq!(counter.get(), 1);
    assert_eq!(pool.queued(), 1);
}

#[test]
fn a_job_submitted_to_a_terminated_pool_is_dropped() {
    let mut pool: ThreadPool<u32> = ThreadPool::new(1);
    pool.shutdown();
    assert_eq!(pool.dispatch(0), Action::Stop);
    assert!(pool.is_terminated());
    pool.submit(9);
    assert_eq!(pool.queued(), 0);
    assert_eq!(pool.dispatch(0), Action::Stop);
}

#[test]
fn two_jobs_may_finish_in_either_order() {
    for first_to_finish in [0usize, 1] {
        let done = Rc::new(Cell::new(0u64));
        let mut pool: ThreadPool<Job> = ThreadPool::new(2);
        pool.submit(counting_job(&done));
        pool.submit(counting_job(&done));
        let a = match pool.dispatch(0) {
            Action::Run(job) => job,
            other => panic!("expected a job, got {}", describe(&other)),
        };
        let b = match pool.dispatch(1) {
            Action::Run(job) => job,
            other => panic!("expected a job, got {}", describe(&other)),
        };
        if first_to_finish == 0 {
            a();
            assert!(pool.complete(0, JobOutcome::Returned));
            b();
            assert!(pool.complete(1, JobOutcome::Returned));
        } else {
            b();
            assert!(pool.complete(1, JobOutcome::Returned));
            a();
            assert!(pool.complete(0, JobOutcome::Returned));
        }
        assert_eq!(done.get(), 2);
        assert_eq!(states(&pool), vec![WorkerState::Idle; 2]);
    }
}

#[test]
fn the_number_of_workers_never_changes() {
    let mut pool: ThreadPool<u32> = ThreadPool::new(3);
    pool.submit(1);
    assert_eq!(pool.size(), 3);
    pool.dispatch(1);
    assert_eq!(pool.size(), 3);
    pool.complete(1, JobOutcome::Failed);
    assert_eq!(pool.size(), 3);
    pool.shutdown();
    assert_eq!(pool.size(), 3);
    for id in 0..3 {
        pool.dispatch(id);
    }
    assert_eq!(pool.size(), 3);
    assert!(pool.is_terminated());
}
