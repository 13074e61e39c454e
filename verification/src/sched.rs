//! The outside scheduled pool serving the same submission interface.
//!
//! `scheduled_thread_pool` brings its own workers, queue and shutdown;
//! here it is wrapped so that callers hand it plain task payloads through
//! the same [`ThreadPool`] interface as the pools of this crate.  Only
//! the two calls into the crate are trusted; handing a task to the fixed
//! runner goes through [`run_task`], which is verified.

use vstd::prelude::*;
use std::marker::PhantomData;
use std::sync::Arc;
use crate::message::PoolError;
use crate::pool::ThreadPool;
use crate::worker::clone_arc;

verus! {

#[verifier::external_type_specification]
#[verifier::external_body]
pub struct ExScheduledThreadPool(scheduled_thread_pool::ScheduledThreadPool);

/// Relies on ScheduledThreadPool::new: builds a pool of `size` worker
/// threads.  It panics when asked for zero threads, so that input is
/// excluded here and refused in verified code before the call.
#[verifier::external_body]
fn sched_new(size: usize) -> scheduled_thread_pool::ScheduledThreadPool
    requires
        size >= 1,
{
    scheduled_thread_pool::ScheduledThreadPool::new(size)
}

/// Relies on ScheduledThreadPool::execute: runs the given closure once,
/// as soon as possible, on some worker thread of that pool.  The closure
/// only hands `task` to the verified [`run_task`]; the cancellation
/// handle that `execute` returns is discarded, which leaves the job
/// scheduled.
#[verifier::external_body]
fn sched_execute<T, R>(
    pool: &scheduled_thread_pool::ScheduledThreadPool,
    runner: Arc<R>,
    task: T,
) where T: Send + 'static, R: Fn(T) + Send + Sync + 'static
    requires
        call_requires(*runner, (task,)),
{
    pool.execute(move || crate::sched::run_task(runner, task));
}

/// Hand one task to the pool's fixed runner, which runs it exactly once.
pub(crate) fn run_task<T, R: Fn(T)>(runner: Arc<R>, task: T)
    requires
        call_requires(*runner, (task,)),
    ensures
        call_ensures(*runner, (task,), ()),
{
    (*runner)(task);
}

/// The outside scheduled pool together with the fixed runner that every
/// submitted payload is handed to.
#[verifier::reject_recursive_types(T)]
#[verifier::reject_recursive_types(R)]
pub struct SchedPool<T, R> {
    inner: scheduled_thread_pool::ScheduledThreadPool,
    runner: Arc<R>,
    tasks: PhantomData<T>,
}

impl<T: Send + 'static, R: Fn(T) + Send + Sync + 'static> SchedPool<T, R> {
    /// The runner accepts every payload; established at construction,
    /// kept for the pool's lifetime.
    pub closed spec fn runner_ok(self) -> bool {
        forall|t: T| call_requires(*self.runner, (t,))
    }

    /// A pool of `size` workers of the outside crate, all executing
    /// through `runner`.  A pool of zero workers is refused, not built.
    pub fn new(size: usize, runner: Arc<R>) -> (r: Result<SchedPool<T, R>, PoolError>)
        requires
            forall|t: T| call_requires(*runner, (t,)),
        ensures
            r is Ok <==> size >= 1,
            size == 0 ==> r == Result::<SchedPool<T, R>, PoolError>::Err(PoolError::ZeroSize),
            r matches Ok(p) ==> p.runner_ok(),
    {
        if size == 0 {
            return Err(PoolError::ZeroSize);
        }
        Ok(SchedPool { inner: sched_new(size), runner, tasks: PhantomData })
    }
}

impl<T: Send + 'static, R: Fn(T) + Send + Sync + 'static> ThreadPool<T> for SchedPool<T, R> {
    /// The outside pool takes work until it is dropped; it offers no
    /// earlier refusal, so this pool counts as open throughout.
    open spec fn pool_open(&self) -> bool {
        true
    }

    open spec fn pool_wf(&self) -> bool {
        self.runner_ok()
    }

    fn execute(&self, task: T) -> (r: Result<(), PoolError>) {
        sched_execute(&self.inner, clone_arc(&self.runner), task);
        Ok(())
    }
}

} // verus!
