// Scenario tests for the pool, driven deterministically: the test thread
// plays the workers, taking one message per worker_step call, so delivery,
// ordering and the teardown protocol are observable directly.

use std::sync::Arc;
use std::sync::Mutex;
use std::sync::atomic::AtomicUsize;
use std::sync::atomic::Ordering;
use std::time::Duration;
use std::time::Instant;

use threadpool::message::Job;
use threadpool::pool::ThreadPool;
use threadpool::worker::worker_step;

struct CountJob {
    hits: Arc<AtomicUsize>,
}

impl Job for CountJob {
    fn run(self) {
        self.hits.fetch_add(1, Ordering::SeqCst);
    }
}

struct AppendJob {
    log: Arc<Mutex<Vec<usize>>>,
    index: usize,
}

impl Job for AppendJob {
    fn run(self) {
        self.log.lock().unwrap().push(self.index);
    }
}

struct RecordJob {
    log: Arc<Mutex<Vec<&'static str>>>,
    label: &'static str,
    busy: Duration,
}

impl Job for RecordJob {
    fn run(self) {
        let start = Instant::now();
        while start.elapsed() < self.busy {}
        self.log.lock().unwrap().push(self.label);
    }
}

#[test]
fn worker_count_matches_requested_size() {
    let (pool, _receiver) = ThreadPool::<CountJob>::new(3);
    assert_eq!(pool.worker_count(), 3);
}

#[test]
fn each_submitted_job_runs_exactly_once() {
    let (mut pool, receiver) = ThreadPool::new(2);
    let hits = Arc::new(AtomicUsize::new(0));
    for _ in 0..5 {
        assert!(pool.execute(CountJob { hits: Arc::clone(&hits) }));
    }
    for _ in 0..5 {
        assert!(worker_step(&receiver));
    }
    assert_eq!(hits.load(Ordering::SeqCst), 5);
    assert_eq!(pool.shutdown(), 2);
    drop(pool);
    assert!(!worker_step(&receiver));
    assert!(!worker_step(&receiver));
    assert_eq!(hits.load(Ordering::SeqCst), 5);
}

#[test]
fn single_worker_runs_jobs_in_submission_order() {
    let (mut pool, receiver) = ThreadPool::new(1);
    let log = Arc::new(Mutex::new(Vec::new()));
    for index in 0..3 {
        assert!(pool.execute(AppendJob { log: Arc::clone(&log), index }));
    }
    for _ in 0..3 {
        assert!(worker_step(&receiver));
    }
    assert_eq!(pool.shutdown(), 1);
    assert!(!worker_step(&receiver));
    assert_eq!(*log.lock().unwrap(), vec![0, 1, 2]);
}

#[test]
fn no_terminate_is_taken_before_an_earlier_job() {
    let (mut pool, receiver) = ThreadPool::new(3);
    let hits = Arc::new(AtomicUsize::new(0));
    for _ in 0..3 {
        assert!(pool.execute(CountJob { hits: Arc::clone(&hits) }));
    }
    assert_eq!(pool.shutdown(), 3);
    // Three jobs were sent before the three terminates: every step that
    // still finds a job keeps the worker going, and only then do the
    // terminates come out, one per worker.
    for _ in 0..3 {
        assert!(worker_step(&receiver));
    }
    for _ in 0..3 {
        assert!(!worker_step(&receiver));
    }
    assert_eq!(hits.load(Ordering::SeqCst), 3);
}

#[test]
fn teardown_sends_one_terminate_per_worker() {
    let (mut pool, receiver) = ThreadPool::<CountJob>::new(4);
    assert_eq!(pool.shutdown(), 4);
    drop(pool);
    for _ in 0..4 {
        assert!(!worker_step(&receiver));
    }
    // The queue is closed and drained: there is no fifth terminate, and a
    // further step stops instead of waiting for a message that cannot come.
    assert!(!worker_step(&receiver));
}

#[test]
fn repeated_teardown_sends_nothing_more() {
    let (mut pool, receiver) = ThreadPool::<CountJob>::new(2);
    assert_eq!(pool.shutdown(), 2);
    assert_eq!(pool.shutdown(), 0);
    drop(pool);
    assert!(!worker_step(&receiver));
    assert!(!worker_step(&receiver));
    assert!(!worker_step(&receiver));
}

#[test]
fn execute_fails_once_every_receiver_is_gone() {
    let (mut pool, receiver) = ThreadPool::new(1);
    drop(receiver);
    let hits = Arc::new(AtomicUsize::new(0));
    assert!(!pool.execute(CountJob { hits: Arc::clone(&hits) }));
    assert_eq!(hits.load(Ordering::SeqCst), 0);
    assert_eq!(pool.shutdown(), 0);
}

#[test]
fn slow_and_fast_job_are_both_recorded_exactly_once() {
    let (mut pool, receiver) = ThreadPool::new(2);
    let log = Arc::new(Mutex::new(Vec::new()));
    assert!(pool.execute(RecordJob {
        log: Arc::clone(&log),
        label: "A",
        busy: Duration::from_millis(50),
    }));
    assert!(pool.execute(RecordJob {
        log: Arc::clone(&log),
        label: "B",
        busy: Duration::from_millis(0),
    }));
    assert!(worker_step(&receiver));
    assert!(worker_step(&receiver));
    assert_eq!(pool.shutdown(), 2);
    let recorded = log.lock().unwrap();
    assert_eq!(recorded.iter().filter(|l| **l == "A").count(), 1);
    assert_eq!(recorded.iter().filter(|l| **l == "B").count(), 1);
}

#[test]
fn shared_receiver_handles_compete_for_the_same_queue() {
    let (mut pool, receiver) = ThreadPool::new(2);
    let second = receiver.share();
    let hits = Arc::new(AtomicUsize::new(0));
    assert!(pool.execute(CountJob { hits: Arc::clone(&hits) }));
    assert!(pool.execute(CountJob { hits: Arc::clone(&hits) }));
    assert!(worker_step(&receiver));
    assert!(worker_step(&second));
    assert_eq!(hits.load(Ordering::SeqCst), 2);
    assert_eq!(pool.shutdown(), 2);
    assert!(!worker_step(&second));
    assert!(!worker_step(&receiver));
}
