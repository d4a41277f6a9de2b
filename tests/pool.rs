use server::thread_pool::{Message, PoolError, ThreadPool, WorkerState};

/// Runs the pool to the end of teardown, visiting the workers in turn, and
/// returns the jobs in the order the workers took them, with the worker that
/// took each.
fn drain(pool: &mut ThreadPool) -> Vec<(usize, u64)> {
    let mut taken = Vec::new();
    loop {
        let mut progressed = false;
        for w in 0..pool.size() {
            if pool.worker_state(w) == WorkerState::Idle {
                match pool.receive(w) {
                    Some(Message::NewJob(id)) => {
                        taken.push((w, id));
                        pool.finish(w);
                        progressed = true;
                    }
                    Some(Message::Terminate) => progressed = true,
                    None => {}
                }
            }
        }
        if !progressed {
            return taken;
        }
    }
}

#[test]
fn new_zero_is_refused() {
    assert_eq!(ThreadPool::new(0).err(), Some(PoolError::ZeroSize));
}

#[test]
fn new_starts_size_idle_workers() {
    for size in [1usize, 2, 4, 7] {
        let pool = ThreadPool::new(size).unwrap();
        assert_eq!(pool.size(), size);
        for w in 0..size {
            assert_eq!(pool.worker_state(w), WorkerState::Idle);
        }
        assert_eq!(pool.pending(), 0);
        assert!(!pool.is_shutting_down());
    }
}

#[test]
fn five_jobs_on_two_workers_each_run_once() {
    let mut pool = ThreadPool::new(2).unwrap();
    for i in 0..5u64 {
        assert_eq!(pool.submit(), Ok(i));
    }
    pool.shutdown();
    let taken = drain(&mut pool);
    let mut ids: Vec<u64> = taken.iter().map(|t| t.1).collect();
    ids.sort();
    assert_eq!(ids, vec![0, 1, 2, 3, 4]);
    assert_eq!(pool.worker_state(0), WorkerState::Stopped);
    assert_eq!(pool.worker_state(1), WorkerState::Stopped);
    assert_eq!(pool.pending(), 0);
}

#[test]
fn single_worker_runs_jobs_in_submission_order() {
    let mut pool = ThreadPool::new(1).unwrap();
    let a = pool.submit().unwrap();
    let b = pool.submit().unwrap();
    pool.shutdown();
    let names: Vec<&str> = drain(&mut pool)
        .iter()
        .map(|t| if t.1 == a { "A" } else if t.1 == b { "B" } else { "?" })
        .collect();
    assert_eq!(names, vec!["A", "B"]);
}

#[test]
fn teardown_with_no_jobs_stops_every_worker() {
    let mut pool = ThreadPool::new(3).unwrap();
    pool.shutdown();
    for w in 0..3 {
        assert_eq!(pool.receive(w), Some(Message::Terminate));
        assert_eq!(pool.worker_state(w), WorkerState::Stopped);
    }
}

#[test]
fn faulted_job_leaves_worker_serving() {
    let mut pool = ThreadPool::new(2).unwrap();
    for _ in 0..3 {
        pool.submit().unwrap();
    }
    // Worker 0 takes job 0, which faults; the worker is done with it all the same.
    assert_eq!(pool.receive(0), Some(Message::NewJob(0)));
    pool.finish(0);
    assert_eq!(pool.worker_state(0), WorkerState::Idle);
    assert_eq!(pool.receive(1), Some(Message::NewJob(1)));
    pool.finish(1);
    assert_eq!(pool.receive(0), Some(Message::NewJob(2)));
    pool.finish(0);
    pool.shutdown();
    assert_eq!(drain(&mut pool), vec![]);
    assert_eq!(pool.worker_state(0), WorkerState::Stopped);
    assert_eq!(pool.worker_state(1), WorkerState::Stopped);
}

#[test]
fn submit_after_shutdown_is_refused() {
    let mut pool = ThreadPool::new(2).unwrap();
    assert_eq!(pool.submit(), Ok(0));
    pool.shutdown();
    assert_eq!(pool.submit(), Err(PoolError::ShuttingDown));
    assert_eq!(pool.pending(), 1);
    pool.shutdown();
    assert_eq!(pool.receive(1), Some(Message::NewJob(0)));
}

#[test]
fn idle_worker_waits_on_empty_channel() {
    let mut pool = ThreadPool::new(2).unwrap();
    assert_eq!(pool.receive(0), None);
    assert_eq!(pool.worker_state(0), WorkerState::Idle);
}

#[test]
fn no_more_jobs_run_than_workers() {
    let mut pool = ThreadPool::new(2).unwrap();
    for _ in 0..3 {
        pool.submit().unwrap();
    }
    assert_eq!(pool.receive(0), Some(Message::NewJob(0)));
    assert_eq!(pool.receive(1), Some(Message::NewJob(1)));
    assert_eq!(pool.worker_state(0), WorkerState::Running(0));
    assert_eq!(pool.worker_state(1), WorkerState::Running(1));
    assert_eq!(pool.pending(), 1);
}

#[test]
fn teardown_hands_out_jobs_before_terminates() {
    let mut pool = ThreadPool::new(1).unwrap();
    pool.submit().unwrap();
    pool.shutdown();
    assert_eq!(pool.receive(0), Some(Message::NewJob(0)));
    pool.finish(0);
    assert_eq!(pool.receive(0), Some(Message::Terminate));
    assert_eq!(pool.worker_state(0), WorkerState::Stopped);
}
