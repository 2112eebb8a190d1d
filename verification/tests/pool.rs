use http_server::Phase;
use http_server::PoolCreationError;
use http_server::Received;
use http_server::Rejection;
use http_server::SubmitError;
use http_server::ThreadPool;

/// What a run of a pool under some schedule has shown.
struct Seen {
    /// The jobs handed out, with the worker that got each, in order.
    handed_out: Vec<(usize, u32)>,
    /// The jobs whose return was reported, in order.
    returned: Vec<u32>,
    /// The job that each worker has in hand.
    in_hand: Vec<Option<u32>>,
    /// The acts of workers that changed the pool.
    moves: usize,
}

impl Seen {
    fn new(size: usize) -> Seen {
        Seen { handed_out: Vec::new(), returned: Vec::new(), in_hand: vec![None; size], moves: 0 }
    }

    /// Lets `worker` act once, as its thread would: report the job in hand, or
    /// else ask for the next message.
    fn act(&mut self, pool: &mut ThreadPool<u32>, worker: usize) {
        if let Some(job) = self.in_hand[worker].take() {
            assert!(pool.complete(worker));
            self.returned.push(job);
            self.moves += 1;
            return;
        }
        match pool.receive(worker) {
            Received::Job(job) => {
                assert_eq!(pool.phase(worker), Some(Phase::Executing));
                self.in_hand[worker] = Some(job);
                self.handed_out.push((worker, job));
                self.moves += 1;
            }
            Received::Terminate => {
                assert_eq!(pool.phase(worker), Some(Phase::Stopped));
                self.moves += 1;
            }
            Received::Empty => assert_eq!(pool.queued(), 0),
            Received::Refused => assert_eq!(pool.phase(worker), Some(Phase::Stopped)),
        }
    }
}

/// The next number of a fixed pseudo-random sequence.
fn next(seed: &mut u64) -> u64 {
    *seed = seed.wrapping_mul(6364136223846793005).wrapping_add(1442695040888963407);
    *seed >> 33
}

#[test]
fn a_pool_without_workers_is_refused() {
    let made: Result<ThreadPool<u32>, PoolCreationError> = ThreadPool::new(0);
    assert!(matches!(made, Err(PoolCreationError)));
}

#[test]
fn a_new_pool_has_the_workers_asked_for() {
    let pool: ThreadPool<u32> = ThreadPool::new(4).unwrap();
    assert_eq!(pool.size(), 4);
    assert_eq!(pool.queued(), 0);
    assert!(!pool.is_shut_down());
    assert!(!pool.is_terminated());
    for worker in 0..4 {
        assert_eq!(pool.phase(worker), Some(Phase::Waiting));
    }
    assert_eq!(pool.phase(4), None);
}

#[test]
fn every_size_from_one_up_makes_a_pool() {
    for size in [1usize, 2, 3, 7, 64, 1000] {
        let pool: ThreadPool<u32> = ThreadPool::new(size).unwrap();
        assert_eq!(pool.size(), size);
        assert_eq!(pool.phase(size - 1), Some(Phase::Waiting));
        assert_eq!(pool.phase(size), None);
    }
}

#[test]
fn the_size_never_changes() {
    let mut pool: ThreadPool<u32> = ThreadPool::new(3).unwrap();
    pool.execute(1).unwrap();
    assert_eq!(pool.size(), 3);
    pool.receive(0);
    assert_eq!(pool.size(), 3);
    pool.complete(0);
    assert_eq!(pool.size(), 3);
    pool.shutdown();
    assert_eq!(pool.size(), 3);
    for worker in 0..3 {
        pool.receive(worker);
    }
    assert!(pool.is_terminated());
    assert_eq!(pool.size(), 3);
}

#[test]
fn workers_are_named_after_their_position() {
    let pool: ThreadPool<u32> = ThreadPool::new(124).unwrap();
    assert_eq!(pool.worker_id(0), Some(String::from("worker-0")));
    assert_eq!(pool.worker_id(9), Some(String::from("worker-9")));
    assert_eq!(pool.worker_id(10), Some(String::from("worker-10")));
    assert_eq!(pool.worker_id(99), Some(String::from("worker-99")));
    assert_eq!(pool.worker_id(100), Some(String::from("worker-100")));
    assert_eq!(pool.worker_id(123), Some(String::from("worker-123")));
    assert_eq!(pool.worker_id(124), None);
}

#[test]
fn names_outlive_shutdown() {
    let mut pool: ThreadPool<u32> = ThreadPool::new(2).unwrap();
    pool.execute(5).unwrap();
    pool.shutdown();
    pool.receive(1);
    assert_eq!(pool.worker_id(0), Some(String::from("worker-0")));
    assert_eq!(pool.worker_id(1), Some(String::from("worker-1")));
}

#[test]
fn a_submitted_job_is_queued() {
    let mut pool: ThreadPool<u32> = ThreadPool::new(2).unwrap();
    assert_eq!(pool.execute(7), Ok(()));
    assert_eq!(pool.queued(), 1);
    assert_eq!(pool.execute(7), Ok(()));
    assert_eq!(pool.queued(), 2);
    assert_eq!(pool.phase(0), Some(Phase::Waiting));
    assert_eq!(pool.phase(1), Some(Phase::Waiting));
}

#[test]
fn jobs_leave_in_the_order_they_came() {
    let mut pool: ThreadPool<u32> = ThreadPool::new(2).unwrap();
    assert_eq!(pool.execute(7), Ok(()));
    assert_eq!(pool.execute(8), Ok(()));
    assert_eq!(pool.receive(1), Received::Job(7));
    assert_eq!(pool.receive(0), Received::Job(8));
    assert_eq!(pool.queued(), 0);
}

#[test]
fn a_message_is_received_by_one_worker_only() {
    let mut pool: ThreadPool<u32> = ThreadPool::new(3).unwrap();
    pool.execute(42).unwrap();
    assert_eq!(pool.receive(2), Received::Job(42));
    assert_eq!(pool.receive(0), Received::Empty);
    assert_eq!(pool.receive(1), Received::Empty);
    assert_eq!(pool.phase(0), Some(Phase::Waiting));
    assert_eq!(pool.phase(1), Some(Phase::Waiting));
    assert_eq!(pool.phase(2), Some(Phase::Executing));
}

#[test]
fn an_empty_channel_keeps_the_worker_waiting() {
    let mut pool: ThreadPool<u32> = ThreadPool::new(1).unwrap();
    assert_eq!(pool.receive(0), Received::Empty);
    assert_eq!(pool.phase(0), Some(Phase::Waiting));
    assert_eq!(pool.queued(), 0);
}

#[test]
fn a_stranger_is_refused() {
    let mut pool: ThreadPool<u32> = ThreadPool::new(2).unwrap();
    pool.execute(1).unwrap();
    assert_eq!(pool.receive(2), Received::Refused);
    assert_eq!(pool.receive(usize::MAX), Received::Refused);
    assert_eq!(pool.queued(), 1);
    assert!(!pool.complete(2));
}

#[test]
fn a_busy_worker_is_refused() {
    let mut pool: ThreadPool<u32> = ThreadPool::new(1).unwrap();
    pool.execute(1).unwrap();
    pool.execute(2).unwrap();
    assert_eq!(pool.receive(0), Received::Job(1));
    assert_eq!(pool.receive(0), Received::Refused);
    assert_eq!(pool.queued(), 1);
    assert_eq!(pool.phase(0), Some(Phase::Executing));
}

#[test]
fn a_stopped_worker_is_refused() {
    let mut pool: ThreadPool<u32> = ThreadPool::new(2).unwrap();
    pool.shutdown();
    assert_eq!(pool.receive(0), Received::Terminate);
    assert_eq!(pool.receive(0), Received::Refused);
    assert_eq!(pool.queued(), 1);
    assert_eq!(pool.phase(0), Some(Phase::Stopped));
    assert!(!pool.complete(0));
    assert_eq!(pool.phase(0), Some(Phase::Stopped));
}

#[test]
fn completion_returns_the_worker_to_waiting() {
    let mut pool: ThreadPool<u32> = ThreadPool::new(2).unwrap();
    pool.execute(1).unwrap();
    assert!(!pool.complete(0));
    assert_eq!(pool.receive(0), Received::Job(1));
    assert!(!pool.complete(1));
    assert!(pool.complete(0));
    assert_eq!(pool.phase(0), Some(Phase::Waiting));
    assert!(!pool.complete(0));
}

#[test]
fn each_job_is_handed_out_once_under_any_schedule() {
    for round in 0..50u64 {
        let mut seed = round;
        let size = 1 + (next(&mut seed) % 5) as usize;
        let jobs = (next(&mut seed) % 40) as u32;
        let mut pool: ThreadPool<u32> = ThreadPool::new(size).unwrap();
        let mut seen = Seen::new(size);
        let mut submitted = 0u32;
        while submitted < jobs || pool.queued() > 0 {
            if submitted < jobs && next(&mut seed) % 2 == 0 {
                assert_eq!(pool.execute(submitted), Ok(()));
                submitted += 1;
            } else {
                let worker = (next(&mut seed) % size as u64) as usize;
                seen.act(&mut pool, worker);
            }
            let so_far: Vec<u32> = seen.handed_out.iter().map(|(_, job)| *job).collect();
            let expected: Vec<u32> = (0..so_far.len() as u32).collect();
            assert_eq!(so_far, expected);
            assert_eq!(so_far.len() + pool.queued(), submitted as usize);
        }
        let all: Vec<u32> = seen.handed_out.iter().map(|(_, job)| *job).collect();
        assert_eq!(all, (0..jobs).collect::<Vec<u32>>());
        assert!(seen.handed_out.iter().all(|(worker, _)| *worker < size));
    }
}

#[test]
fn two_workers_are_busy_at_once() {
    let mut pool: ThreadPool<u32> = ThreadPool::new(2).unwrap();
    pool.execute(1).unwrap();
    pool.execute(2).unwrap();
    assert_eq!(pool.receive(0), Received::Job(1));
    assert_eq!(pool.receive(1), Received::Job(2));
    assert_eq!(pool.phase(0), Some(Phase::Executing));
    assert_eq!(pool.phase(1), Some(Phase::Executing));
    assert!(pool.complete(1));
    assert!(pool.complete(0));
}

#[test]
fn a_busy_worker_keeps_nobody_from_the_channel() {
    let mut pool: ThreadPool<u32> = ThreadPool::new(4).unwrap();
    for job in 0..4 {
        pool.execute(job).unwrap();
    }
    assert_eq!(pool.receive(3), Received::Job(0));
    assert_eq!(pool.receive(2), Received::Job(1));
    assert_eq!(pool.receive(1), Received::Job(2));
    assert_eq!(pool.receive(0), Received::Job(3));
    for worker in 0..4 {
        assert_eq!(pool.phase(worker), Some(Phase::Executing));
    }
}

#[test]
fn shutdown_queues_one_terminate_for_each_worker() {
    let mut pool: ThreadPool<u32> = ThreadPool::new(3).unwrap();
    pool.execute(1).unwrap();
    pool.execute(2).unwrap();
    pool.shutdown();
    assert!(pool.is_shut_down());
    assert_eq!(pool.queued(), 5);
    for worker in 0..3 {
        assert_eq!(pool.phase(worker), Some(Phase::Waiting));
    }
}

#[test]
fn a_second_shutdown_does_nothing() {
    let mut pool: ThreadPool<u32> = ThreadPool::new(3).unwrap();
    pool.shutdown();
    assert_eq!(pool.queued(), 3);
    pool.shutdown();
    assert_eq!(pool.queued(), 3);
    assert_eq!(pool.receive(1), Received::Terminate);
    pool.shutdown();
    assert_eq!(pool.queued(), 2);
    assert!(pool.is_shut_down());
}

#[test]
fn a_job_submitted_after_shutdown_comes_back() {
    let mut pool: ThreadPool<u32> = ThreadPool::new(2).unwrap();
    pool.shutdown();
    assert_eq!(pool.execute(9), Err(SubmitError { job: 9, reason: Rejection::ShutDown }));
    assert_eq!(pool.queued(), 2);
    let refused = pool.execute(10).unwrap_err();
    assert_eq!(refused.reason, Rejection::ShutDown);
    assert_eq!(refused.message(), "The pool is shutting down and takes no more jobs");
    assert_eq!(refused.into_job(), 10);
}

#[test]
fn a_terminate_message_stops_whoever_takes_it() {
    let mut pool: ThreadPool<u32> = ThreadPool::new(3).unwrap();
    pool.shutdown();
    assert_eq!(pool.receive(2), Received::Terminate);
    assert_eq!(pool.phase(0), Some(Phase::Waiting));
    assert_eq!(pool.phase(1), Some(Phase::Waiting));
    assert_eq!(pool.phase(2), Some(Phase::Stopped));
    assert!(!pool.is_terminated());
    assert_eq!(pool.receive(0), Received::Terminate);
    assert_eq!(pool.receive(1), Received::Terminate);
    assert!(pool.is_terminated());
    assert_eq!(pool.queued(), 0);
}

#[test]
fn jobs_queued_before_shutdown_run_before_any_worker_stops() {
    let mut pool: ThreadPool<u32> = ThreadPool::new(2).unwrap();
    for job in 1..=5 {
        pool.execute(job).unwrap();
    }
    pool.shutdown();
    assert_eq!(pool.queued(), 7);
    let mut seen = Seen::new(2);
    for worker in [0, 1, 1, 0, 0, 1, 1, 0, 0, 0, 1] {
        assert!(!pool.is_terminated());
        seen.act(&mut pool, worker);
    }
    assert_eq!(seen.handed_out, vec![(0, 1), (1, 2), (0, 3), (1, 4), (0, 5)]);
    assert_eq!(seen.returned, vec![2, 1, 4, 3, 5]);
    assert_eq!(pool.phase(0), Some(Phase::Waiting));
    assert_eq!(pool.phase(1), Some(Phase::Stopped));
    assert_eq!(pool.queued(), 1);
    assert!(!pool.is_terminated());
    seen.act(&mut pool, 0);
    assert!(pool.is_terminated());
    assert_eq!(pool.queued(), 0);
    assert_eq!(seen.moves, 12);
}

#[test]
fn shutdown_stops_every_worker_under_any_schedule() {
    for round in 0..50u64 {
        let mut seed = 1000 + round;
        let size = 1 + (next(&mut seed) % 6) as usize;
        let jobs = (next(&mut seed) % 30) as u32;
        let mut pool: ThreadPool<u32> = ThreadPool::new(size).unwrap();
        let mut seen = Seen::new(size);
        for job in 0..jobs {
            pool.execute(job).unwrap();
            if next(&mut seed) % 3 == 0 {
                let worker = (next(&mut seed) % size as u64) as usize;
                seen.act(&mut pool, worker);
            }
        }
        let busy = seen.in_hand.iter().filter(|job| job.is_some()).count();
        let waiting_jobs = jobs as usize - seen.handed_out.len();
        let work_left = 2 * waiting_jobs + busy + size;
        pool.shutdown();
        assert_eq!(pool.queued(), waiting_jobs + size);
        seen.moves = 0;
        let mut turns = 0;
        while !pool.is_terminated() {
            let worker = (next(&mut seed) % size as u64) as usize;
            seen.act(&mut pool, worker);
            turns += 1;
            assert!(turns < 100_000);
        }
        assert_eq!(seen.moves, work_left);
        assert_eq!(pool.queued(), 0);
        assert_eq!(seen.returned.len(), jobs as usize);
        let all: Vec<u32> = seen.handed_out.iter().map(|(_, job)| *job).collect();
        assert_eq!(all, (0..jobs).collect::<Vec<u32>>());
        for worker in 0..size {
            assert_eq!(pool.phase(worker), Some(Phase::Stopped));
        }
    }
}

#[test]
fn a_single_worker_runs_its_jobs_in_turn() {
    let mut pool: ThreadPool<&str> = ThreadPool::new(1).unwrap();
    pool.execute("a").unwrap();
    pool.execute("b").unwrap();
    assert_eq!(pool.receive(0), Received::Job("a"));
    assert_eq!(pool.receive(0), Received::Refused);
    assert_eq!(pool.queued(), 1);
    assert!(pool.complete(0));
    assert_eq!(pool.receive(0), Received::Job("b"));
    assert!(pool.complete(0));
    assert_eq!(pool.receive(0), Received::Empty);
}

#[test]
fn a_single_worker_keeps_the_order_of_many_jobs() {
    let mut pool: ThreadPool<u32> = ThreadPool::new(1).unwrap();
    let mut seen = Seen::new(1);
    let mut seed = 7;
    let mut submitted = 0;
    while submitted < 100 || pool.queued() > 0 || seen.in_hand[0].is_some() {
        if submitted < 100 && next(&mut seed) % 2 == 0 {
            pool.execute(submitted).unwrap();
            submitted += 1;
        } else {
            let before = seen.handed_out.len();
            seen.act(&mut pool, 0);
            if seen.handed_out.len() > before {
                assert_eq!(seen.returned.len(), before);
            }
        }
    }
    assert_eq!(seen.returned, (0..100).collect::<Vec<u32>>());
}

#[test]
fn an_idle_pool_shuts_down() {
    for size in 1..=16usize {
        let mut pool: ThreadPool<u32> = ThreadPool::new(size).unwrap();
        pool.shutdown();
        assert_eq!(pool.queued(), size);
        for worker in (0..size).rev() {
            assert!(!pool.is_terminated());
            assert_eq!(pool.receive(worker), Received::Terminate);
            assert_eq!(pool.queued(), worker);
        }
        assert!(pool.is_terminated());
    }
}

#[test]
fn the_creation_error_says_what_went_wrong() {
    let error = ThreadPool::<u32>::new(0).err().unwrap();
    assert_eq!(error.message(), "Error creating pool. Size must be at least 1");
    assert_eq!(error, PoolCreationError);
}

#[test]
fn a_pool_carries_jobs_that_cannot_be_copied() {
    let mut pool: ThreadPool<Box<dyn FnOnce() -> u32 + Send>> = ThreadPool::new(1).unwrap();
    assert!(pool.execute(Box::new(|| 6 * 7)).is_ok());
    match pool.receive(0) {
        Received::Job(job) => assert_eq!(job(), 42),
        _ => panic!("the job was not handed out"),
    }
    assert!(pool.complete(0));
}

#[test]
fn a_failed_job_takes_its_worker_and_nothing_else() {
    let mut pool: ThreadPool<u32> = ThreadPool::new(3).unwrap();
    pool.execute(1).unwrap();
    pool.execute(2).unwrap();
    pool.execute(3).unwrap();
    assert_eq!(pool.receive(0), Received::Job(1));
    assert_eq!(pool.receive(1), Received::Job(2));
    assert!(pool.abandon(1));
    assert_eq!(pool.phase(0), Some(Phase::Executing));
    assert_eq!(pool.phase(1), Some(Phase::Failed));
    assert_eq!(pool.phase(2), Some(Phase::Waiting));
    assert_eq!(pool.queued(), 1);
    assert!(!pool.is_shut_down());
    assert_eq!(pool.size(), 3);
    assert_eq!(pool.receive(2), Received::Job(3));
    assert!(pool.complete(0));
    assert_eq!(pool.execute(4), Ok(()));
    assert_eq!(pool.receive(0), Received::Job(4));
}

#[test]
fn only_a_busy_worker_can_fail() {
    let mut pool: ThreadPool<u32> = ThreadPool::new(2).unwrap();
    assert!(!pool.abandon(0));
    assert!(!pool.abandon(2));
    assert_eq!(pool.phase(0), Some(Phase::Waiting));
    pool.execute(1).unwrap();
    assert_eq!(pool.receive(0), Received::Job(1));
    assert!(!pool.abandon(1));
    assert!(pool.abandon(0));
    assert!(!pool.abandon(0));
    assert_eq!(pool.phase(0), Some(Phase::Failed));
    assert_eq!(pool.phase(1), Some(Phase::Waiting));
}

#[test]
fn a_failed_worker_stays_failed() {
    let mut pool: ThreadPool<u32> = ThreadPool::new(2).unwrap();
    pool.execute(1).unwrap();
    pool.execute(2).unwrap();
    assert_eq!(pool.receive(0), Received::Job(1));
    assert!(pool.abandon(0));
    assert_eq!(pool.receive(0), Received::Refused);
    assert!(!pool.complete(0));
    assert_eq!(pool.queued(), 1);
    pool.shutdown();
    assert_eq!(pool.receive(0), Received::Refused);
    assert_eq!(pool.phase(0), Some(Phase::Failed));
}

#[test]
fn a_pool_without_a_running_worker_takes_no_job() {
    let mut pool: ThreadPool<u32> = ThreadPool::new(2).unwrap();
    pool.execute(1).unwrap();
    pool.execute(2).unwrap();
    assert_eq!(pool.receive(0), Received::Job(1));
    assert_eq!(pool.receive(1), Received::Job(2));
    assert!(pool.abandon(0));
    assert!(!pool.is_terminated());
    assert_eq!(pool.execute(3), Ok(()));
    assert!(pool.abandon(1));
    assert!(pool.is_terminated());
    assert!(!pool.is_shut_down());
    assert_eq!(pool.execute(4), Err(SubmitError { job: 4, reason: Rejection::NoWorker }));
    assert_eq!(pool.queued(), 1);
    let refused = pool.execute(5).unwrap_err();
    assert_eq!(refused.message(), "The pool has no worker left to run the job");
    assert_eq!(refused.into_job(), 5);
}

#[test]
fn shutdown_is_the_first_reason_to_refuse_a_job() {
    let mut pool: ThreadPool<u32> = ThreadPool::new(1).unwrap();
    pool.execute(1).unwrap();
    assert_eq!(pool.receive(0), Received::Job(1));
    assert!(pool.abandon(0));
    pool.shutdown();
    assert_eq!(pool.execute(2), Err(SubmitError { job: 2, reason: Rejection::ShutDown }));
    assert_eq!(pool.queued(), 1);
}

#[test]
fn shutdown_stops_the_workers_that_are_left() {
    let mut pool: ThreadPool<u32> = ThreadPool::new(3).unwrap();
    for job in 1..=4 {
        pool.execute(job).unwrap();
    }
    assert_eq!(pool.receive(1), Received::Job(1));
    assert!(pool.abandon(1));
    pool.shutdown();
    assert_eq!(pool.queued(), 6);
    let mut seen = Seen::new(3);
    while !pool.is_terminated() {
        seen.act(&mut pool, 0);
        seen.act(&mut pool, 2);
    }
    assert_eq!(seen.returned, vec![2, 3, 4]);
    assert_eq!(pool.phase(0), Some(Phase::Stopped));
    assert_eq!(pool.phase(1), Some(Phase::Failed));
    assert_eq!(pool.phase(2), Some(Phase::Stopped));
    assert_eq!(pool.queued(), 1);
}

#[test]
fn failures_cost_their_own_job_only_under_any_schedule() {
    for round in 0..50u64 {
        let mut seed = 5000 + round;
        let size = 2 + (next(&mut seed) % 4) as usize;
        let jobs = (next(&mut seed) % 30) as u32;
        let mut pool: ThreadPool<u32> = ThreadPool::new(size).unwrap();
        let mut seen = Seen::new(size);
        let mut failed = 0;
        for job in 0..jobs {
            pool.execute(job).unwrap();
            let worker = (next(&mut seed) % size as u64) as usize;
            if failed + 1 < size && seen.in_hand[worker].is_some() && next(&mut seed) % 4 == 0 {
                assert!(pool.abandon(worker));
                seen.in_hand[worker] = None;
                failed += 1;
            } else if pool.phase(worker) != Some(Phase::Failed) {
                seen.act(&mut pool, worker);
            }
        }
        pool.shutdown();
        let mut turns = 0;
        while !pool.is_terminated() {
            let worker = (next(&mut seed) % size as u64) as usize;
            if pool.phase(worker) != Some(Phase::Failed) {
                seen.act(&mut pool, worker);
            }
            turns += 1;
            assert!(turns < 100_000);
        }
        assert_eq!(seen.handed_out.len(), jobs as usize);
        assert_eq!(seen.returned.len() + failed, jobs as usize);
        assert_eq!(pool.queued(), failed);
    }
}
