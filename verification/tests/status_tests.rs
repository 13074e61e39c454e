use workpool::message::PoolError;
use workpool::status::{drain, next_job, validate_pool_size, NextJob, Status};

#[test]
fn pool_size_zero_is_refused_not_clamped() {
    assert_eq!(validate_pool_size(0), Err(PoolError::ZeroSize));
    assert_eq!(validate_pool_size(1), Ok(1));
    assert_eq!(validate_pool_size(16), Ok(16));
}

#[test]
fn new_status_is_empty_and_open() {
    let status: Status<u64> = Status::new();
    assert_eq!(status.pending(), 0);
}

#[test]
fn next_job_hands_tasks_out_in_fifo_order() {
    let mut status: Status<u64> = Status::new();
    status.push_task(10);
    status.push_task(20);
    status.push_task(30);
    assert!(matches!(next_job(&mut status), NextJob::Run(10)));
    assert!(matches!(next_job(&mut status), NextJob::Run(20)));
    assert!(matches!(next_job(&mut status), NextJob::Run(30)));
    assert_eq!(status.pending(), 0);
}

#[test]
fn next_job_waits_when_empty_and_open() {
    let mut status: Status<u64> = Status::new();
    assert!(matches!(next_job(&mut status), NextJob::Wait));
    assert!(matches!(next_job(&mut status), NextJob::Wait));
}

#[test]
fn shutdown_flag_is_visible_to_the_submission_side() {
    let mut status: Status<u64> = Status::new();
    assert!(!status.shutting_down());
    status.request_shutdown();
    assert!(status.shutting_down());
}

#[test]
fn next_job_exits_when_empty_after_shutdown() {
    let mut status: Status<u64> = Status::new();
    status.request_shutdown();
    assert!(matches!(next_job(&mut status), NextJob::Exit));
    assert!(matches!(next_job(&mut status), NextJob::Exit));
}

#[test]
fn next_job_drains_queued_task_before_exiting() {
    let mut status: Status<u64> = Status::new();
    status.push_task(7);
    status.request_shutdown();
    assert!(matches!(next_job(&mut status), NextJob::Run(7)));
    assert!(matches!(next_job(&mut status), NextJob::Exit));
}

#[test]
fn drain_returns_every_pending_task_exactly_once_in_order() {
    let mut status: Status<u64> = Status::new();
    for i in 0..1000u64 {
        status.push_task(i);
    }
    status.request_shutdown();
    let ran = drain(&mut status);
    assert_eq!(ran.len(), 1000);
    for (i, t) in ran.iter().enumerate() {
        assert_eq!(*t, i as u64);
    }
    assert_eq!(status.pending(), 0);
}

#[test]
fn drain_with_no_pending_tasks_returns_nothing() {
    let mut status: Status<u64> = Status::new();
    status.request_shutdown();
    let ran = drain(&mut status);
    assert!(ran.is_empty());
}

#[test]
fn tasks_pushed_after_shutdown_still_drain() {
    let mut status: Status<u64> = Status::new();
    status.request_shutdown();
    status.push_task(1);
    status.push_task(2);
    let ran = drain(&mut status);
    assert_eq!(ran, vec![1, 2]);
}
