//! The shared state of the condition-variable-guarded strategy: an ordered
//! sequence of pending tasks plus a shutdown flag, both meant to sit behind
//! one exclusive lock, with a wait/notify primitive beside it.
//!
//! The decisions of that strategy stand here, verified; the lock, the
//! condition variable and the worker threads around them are plumbing that
//! the surrounding program supplies.  A worker holds the lock, calls
//! [`next_job`], and either runs the task handed back, exits, or waits on
//! the condition variable before asking again.

use vstd::prelude::*;
use std::collections::VecDeque;
use crate::message::PoolError;

verus! {

/// The construction decision every strategy shares: a pool of zero
/// workers could never run a task, so it is refused outright — never
/// silently clamped to one.
pub fn validate_pool_size(size: usize) -> (r: Result<usize, PoolError>)
    ensures
        r is Ok <==> size >= 1,
        size >= 1 ==> r == Result::<usize, PoolError>::Ok(size),
        size == 0 ==> r == Result::<usize, PoolError>::Err(PoolError::ZeroSize),
{
    if size == 0 {
        Err(PoolError::ZeroSize)
    } else {
        Ok(size)
    }
}

/// The guarded state: pending tasks in arrival order, and whether shutdown
/// has been requested.
pub struct Status<T> {
    /// Pending tasks, front = next to run.
    pub queue: VecDeque<T>,
    /// Set once by shutdown; never cleared.
    pub shutdown: bool,
}

/// What a worker that holds the lock must do next.
pub enum NextJob<T> {
    /// Run the task handed back and come back for the next.
    Run(T),
    /// No task and no shutdown: release the lock and wait to be notified.
    Wait,
    /// No task and shutdown was requested: the worker's loop ends.
    Exit,
}

impl<T> Status<T> {
    /// The pending tasks, oldest first.
    pub open spec fn tasks(self) -> Seq<T> {
        self.queue@
    }

    /// Whether shutdown has been requested.
    pub open spec fn is_shutdown(self) -> bool {
        self.shutdown
    }

    /// A fresh state: no pending tasks, shutdown not requested.
    pub fn new() -> (s: Self)
        ensures
            s.tasks() == Seq::<T>::empty(),
            !s.is_shutdown(),
    {
        Status { queue: VecDeque::new(), shutdown: false }
    }

    /// The submission side: append one task at the back.
    ///
    /// The caller then notifies one waiter, so that a blocked worker
    /// wakes and finds the new entry.
    pub fn push_task(&mut self, t: T)
        ensures
            final(self).tasks() == old(self).tasks().push(t),
            final(self).is_shutdown() == old(self).is_shutdown(),
    {
        self.queue.push_back(t);
    }

    /// The shutdown side: set the flag, leaving queued tasks in place so
    /// that workers drain them before exiting.
    ///
    /// The caller notifies all waiters afterwards, so that every blocked
    /// worker wakes and observes the flag.
    pub fn request_shutdown(&mut self)
        ensures
            final(self).tasks() == old(self).tasks(),
            final(self).is_shutdown(),
    {
        self.shutdown = true;
    }

    /// Whether shutdown has been requested; the submission side asks this
    /// under the lock and refuses new tasks once it holds, so work is
    /// never left behind in a queue no worker will visit again.
    pub fn shutting_down(&self) -> (b: bool)
        ensures
            b == self.is_shutdown(),
    {
        self.shutdown
    }

    /// How many tasks are pending.
    pub fn pending(&self) -> (n: usize)
        ensures
            n == self.tasks().len(),
    {
        self.queue.len()
    }
}

/// The worker-side decision of the condition-variable strategy, taken while
/// holding the lock: pop the front task if there is one (tasks still queued
/// at shutdown time are drained before exit); with an empty queue, exit if
/// shutdown was requested, else wait.
pub fn next_job<T>(status: &mut Status<T>) -> (step: NextJob<T>)
    ensures
        ({
            let pre = *old(status);
            let post = *final(status);
            &&& post.is_shutdown() == pre.is_shutdown()
            &&& if pre.tasks().len() > 0 {
                &&& step matches NextJob::Run(t) && t == pre.tasks()[0]
                &&& post.tasks() == pre.tasks().drop_first()
            } else {
                &&& post.tasks() == pre.tasks()
                &&& step == (if pre.is_shutdown() {
                    NextJob::<T>::Exit
                } else {
                    NextJob::<T>::Wait
                })
            }
        }),
{
    match status.queue.pop_front() {
        Some(t) => NextJob::Run(t),
        None => {
            if status.shutdown {
                NextJob::Exit
            } else {
                NextJob::Wait
            }
        },
    }
}

/// What one worker left alone with the queue does after shutdown was
/// requested: repeated calls of [`next_job`] hand back every pending task
/// exactly once, oldest first, and then `Exit` — never `Wait`, so the
/// worker is not left blocking.  The tasks are returned in the order they
/// were handed out.
pub fn drain<T>(status: &mut Status<T>) -> (ran: Vec<T>)
    requires
        old(status).is_shutdown(),
    ensures
        ran@ == old(status).tasks(),
        final(status).tasks().len() == 0,
        final(status).is_shutdown(),
{
    let mut ran: Vec<T> = Vec::new();
    while status.pending() > 0
        invariant
            status.is_shutdown(),
            old(status).tasks() == ran@ + status.tasks(),
        decreases status.tasks().len(),
    {
        // While tasks are pending, next_job's contract admits only Run.
        match next_job(status) {
            NextJob::Run(t) => {
                ran.push(t);
                proof {
                    assert(old(status).tasks() =~= ran@ + status.tasks());
                }
            },
            NextJob::Wait => {
                proof {
                    assert(false);
                }
            },
            NextJob::Exit => {
                proof {
                    assert(false);
                }
            },
        }
    }
    let step = next_job(status);
    assert(step is Exit);
    proof {
        assert(ran@ =~= old(status).tasks());
    }
    ran
}

} // verus!
