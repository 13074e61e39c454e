use std::cell::RefCell;

use workpool::message::PoolError;
use workpool::pool::{prepare_locked, prepare_mpmc, PoolCore};
use workpool::worker::{dispatch_task, worker_step, Worker, WorkerSet};

#[test]
fn dispatch_runs_a_task_once_and_keeps_the_worker_running() {
    let ran: RefCell<Vec<u64>> = RefCell::new(Vec::new());
    let runner = |t: u64| {
        ran.borrow_mut().push(t);
    };
    assert!(!dispatch_task(Some(9), &runner));
    assert_eq!(*ran.borrow(), vec![9]);
}

#[test]
fn dispatch_without_a_task_stops_the_worker_and_runs_nothing() {
    let ran: RefCell<Vec<u64>> = RefCell::new(Vec::new());
    let runner = |t: u64| {
        ran.borrow_mut().push(t);
    };
    assert!(dispatch_task(None, &runner));
    assert!(ran.borrow().is_empty());
}

#[test]
fn worker_slot_empties_exactly_once() {
    let mut worker: Worker<u32> = Worker::new(3, 99);
    assert_eq!(worker.id(), 3);
    assert_eq!(worker.take_handle(), Some(99));
    assert_eq!(worker.take_handle(), None);
    assert_eq!(worker.id(), 3);
}

#[test]
fn worker_set_hands_each_handle_back_once_in_order() {
    let mut set: WorkerSet<u32> = WorkerSet::assemble(vec![5, 6, 7]);
    assert_eq!(set.worker_count(), 3);
    assert!(!set.is_consumed());
    assert_eq!(set.consume_all(), vec![5, 6, 7]);
    assert!(set.is_consumed());
    assert_eq!(set.consume_all(), Vec::<u32>::new());
    assert_eq!(set.worker_count(), 3);
}

#[test]
fn zero_size_pool_is_refused() {
    assert_eq!(prepare_mpmc::<u64>(0).err(), Some(PoolError::ZeroSize));
    assert_eq!(prepare_locked::<u64>(0).err(), Some(PoolError::ZeroSize));
}

#[test]
fn prepare_gives_one_source_per_worker() {
    let (_sender, sources) = prepare_mpmc::<u64>(4).unwrap();
    assert_eq!(sources.len(), 4);
    let (_sender, sources) = prepare_locked::<u64>(7).unwrap();
    assert_eq!(sources.len(), 7);
}

#[test]
fn pool_reports_its_fixed_size() {
    let (sender, _sources) = prepare_mpmc::<u64>(3).unwrap();
    let pool = PoolCore::assemble(sender, vec![0u32, 1, 2]);
    assert_eq!(pool.worker_count(), 3);
    assert!(!pool.is_disposed());
}

#[test]
fn execute_after_dispose_is_refused() {
    let (sender, _sources) = prepare_mpmc::<u64>(2).unwrap();
    let mut pool = PoolCore::assemble(sender, vec![0u32, 1]);
    assert_eq!(pool.execute(5), Ok(()));
    pool.dispose();
    assert_eq!(pool.execute(6), Err(PoolError::PoolClosed));
}

#[test]
fn dispose_returns_every_handle_once_then_none() {
    let (sender, _sources) = prepare_mpmc::<u64>(4).unwrap();
    let mut pool = PoolCore::assemble(sender, vec![10u32, 11, 12, 13]);
    let handles = pool.dispose();
    assert_eq!(handles, vec![10, 11, 12, 13]);
    assert!(pool.is_disposed());
    let again = pool.dispose();
    assert!(again.is_empty());
    assert_eq!(pool.worker_count(), 4);
}

#[test]
fn single_worker_executes_each_task_exactly_once_in_order() {
    let (sender, sources) = prepare_mpmc::<u64>(1).unwrap();
    let mut pool = PoolCore::assemble(sender, vec![0u32]);
    for i in 0..100u64 {
        assert_eq!(pool.execute(i), Ok(()));
    }
    pool.dispose();

    let ran: RefCell<Vec<u64>> = RefCell::new(Vec::new());
    let runner = |t: u64| {
        ran.borrow_mut().push(t);
    };
    while !worker_step(&sources[0], &runner) {}
    let ran = ran.into_inner();
    assert_eq!(ran.len(), 100);
    for (i, t) in ran.iter().enumerate() {
        assert_eq!(*t, i as u64);
    }
}

#[test]
fn four_worker_pool_counts_ten_thousand_tasks() {
    let (sender, sources) = prepare_mpmc::<u64>(4).unwrap();
    let mut pool = PoolCore::assemble(sender, vec![0u32, 1, 2, 3]);
    for i in 0..10_000u64 {
        assert_eq!(pool.execute(i), Ok(()));
    }
    pool.dispose();

    let counter = RefCell::new(0u64);
    let runner = |_t: u64| {
        *counter.borrow_mut() += 1;
    };
    for source in sources.iter() {
        while !worker_step(source, &runner) {}
    }
    assert_eq!(counter.into_inner(), 10_000);
}

#[test]
fn locked_pool_executes_each_task_exactly_once() {
    let (sender, sources) = prepare_locked::<u64>(4).unwrap();
    let mut pool = PoolCore::assemble(sender, vec![0u32, 1, 2, 3]);
    let total: usize = 8_000;
    for i in 0..total as u64 {
        assert_eq!(pool.execute(i), Ok(()));
    }
    pool.dispose();

    let seen: RefCell<Vec<u32>> = RefCell::new(vec![0u32; total]);
    let runner = |t: u64| {
        seen.borrow_mut()[t as usize] += 1;
    };
    for source in sources.iter() {
        while !worker_step(source, &runner) {}
    }
    let seen = seen.into_inner();
    assert!(seen.iter().all(|&n| n == 1));
}

#[test]
fn every_worker_gets_its_own_stop_signal() {
    let (sender, sources) = prepare_mpmc::<u64>(3).unwrap();
    let mut pool = PoolCore::assemble(sender, vec![0u32, 1, 2]);
    pool.execute(1).unwrap();
    pool.dispose();
    // One stop signal per worker: each source, taken alone, stops.
    for source in sources.iter() {
        let runner = |_t: u64| {};
        while !worker_step(source, &runner) {}
    }
}
