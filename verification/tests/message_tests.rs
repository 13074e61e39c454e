use std::sync::atomic::{AtomicU64, Ordering};
use std::sync::Arc;

use workpool::message::{message_to_task, Message, PoolError};
use workpool::sched::SchedPool;

#[test]
fn task_messages_decode_to_their_payload() {
    assert_eq!(message_to_task(Some(Message::NewTask(42u64))), Some(42));
}

#[test]
fn stop_signal_and_torn_down_channel_both_decode_to_a_stop() {
    assert_eq!(message_to_task(Some(Message::<u64>::Terminate)), None);
    assert_eq!(message_to_task(None::<Message<u64>>), None);
}

#[test]
fn messages_carry_their_payload() {
    let m: Message<u64> = Message::NewTask(42);
    match m {
        Message::NewTask(t) => assert_eq!(t, 42),
        Message::Terminate => panic!("a task message must not be a stop signal"),
    }
    let m: Message<u64> = Message::Terminate;
    assert!(matches!(m, Message::Terminate));
}

#[test]
fn pool_errors_describe_themselves() {
    assert_eq!(PoolError::ZeroSize.describe(), "pool size must be at least 1");
    assert_eq!(PoolError::PoolClosed.describe(), "pool is shutting down");
}

#[test]
fn zero_size_scheduled_pool_is_refused() {
    let runner = Arc::new(|_t: u64| {});
    let pool: Result<SchedPool<u64, _>, PoolError> = SchedPool::new(0, runner);
    assert_eq!(pool.err(), Some(PoolError::ZeroSize));
}

#[test]
fn scheduled_pool_accepts_submissions() {
    let counter = Arc::new(AtomicU64::new(0));
    let seen = Arc::clone(&counter);
    let runner = Arc::new(move |t: u64| {
        seen.fetch_add(t, Ordering::SeqCst);
    });
    let pool: SchedPool<u64, _> = SchedPool::new(2, runner).unwrap();
    for _ in 0..10 {
        assert_eq!(workpool::pool::ThreadPool::execute(&pool, 1), Ok(()));
    }
    drop(pool);
    // The outside pool completes pending work on drop but does not block
    // for it, so give its workers a moment to finish.
    let deadline = std::time::Instant::now() + std::time::Duration::from_secs(10);
    while counter.load(Ordering::SeqCst) < 10 && std::time::Instant::now() < deadline {
        std::hint::spin_loop();
    }
    assert_eq!(counter.load(Ordering::SeqCst), 10);
}
