//! The pool: the fixed set of workers, the submission side of the work
//! channel, and the shutdown coordinator.
//!
//! The surrounding program owns the threads: it starts one per worker on
//! a receiving side prepared here, wraps each handle in a [`Worker`], and
//! assembles the pool from them.  Everything the pool decides — whether a
//! submission is accepted, that shutdown sends exactly one stop signal
//! per worker, that every handle slot is consumed exactly once and that a
//! second disposal does nothing — is verified here; the program only
//! spawns and joins.

use vstd::prelude::*;
use crate::chan::{new_channel, send_message};
use crate::message::{Message, PoolError};
use crate::sources::{LockedSource, MpmcSource};
use crate::worker::{Worker, WorkerSet};

verus! {

/// The submission interface every strategy serves: hand one task to some
/// worker of the pool.
pub trait ThreadPool<T> {
    /// Whether the pool still accepts work: true from construction until
    /// disposal begins.
    spec fn pool_open(&self) -> bool;

    /// The structural invariant the pool keeps between calls.
    spec fn pool_wf(&self) -> bool;

    /// Submit one task.  An open pool accepts it, and some worker later
    /// executes it exactly once; a pool whose disposal has begun refuses
    /// it instead.
    fn execute(&self, task: T) -> (r: Result<(), PoolError>)
        requires
            self.pool_wf(),
        ensures
            r is Ok <==> self.pool_open(),
            !self.pool_open() ==> r == Result::<(), PoolError>::Err(PoolError::PoolClosed),
    ;
}

/// The receiving sides for a pool of `size` workers under the lock-free
/// strategy: one independent clone of the channel endpoint per worker,
/// plus the submission endpoint.  A pool of zero workers is refused.
pub fn prepare_mpmc<T: Send>(size: usize) -> (r: Result<
    (crossbeam::channel::Sender<Message<T>>, Vec<MpmcSource<T>>),
    PoolError,
>)
    ensures
        r is Ok <==> size >= 1,
        size == 0 ==> r == Result::<
            (crossbeam::channel::Sender<Message<T>>, Vec<MpmcSource<T>>),
            PoolError,
        >::Err(PoolError::ZeroSize),
        r matches Ok(p) ==> p.1@.len() == size,
{
    if size == 0 {
        return Err(PoolError::ZeroSize);
    }
    let (sender, receiver) = new_channel::<Message<T>>();
    let first = MpmcSource::new(receiver);
    let mut sources: Vec<MpmcSource<T>> = Vec::new();
    while sources.len() < size - 1
        invariant
            sources.len() <= size - 1,
        decreases size - 1 - sources.len(),
    {
        sources.push(first.duplicate());
    }
    sources.push(first);
    Ok((sender, sources))
}

/// The receiving sides for a pool of `size` workers under the locked
/// single-receiver strategy: every worker shares one locked endpoint.
/// A pool of zero workers is refused.
pub fn prepare_locked<T: Send>(size: usize) -> (r: Result<
    (crossbeam::channel::Sender<Message<T>>, Vec<LockedSource<T>>),
    PoolError,
>)
    ensures
        r is Ok <==> size >= 1,
        size == 0 ==> r == Result::<
            (crossbeam::channel::Sender<Message<T>>, Vec<LockedSource<T>>),
            PoolError,
        >::Err(PoolError::ZeroSize),
        r matches Ok(p) ==> p.1@.len() == size,
{
    if size == 0 {
        return Err(PoolError::ZeroSize);
    }
    let (sender, receiver) = new_channel::<Message<T>>();
    let first = LockedSource::new(receiver);
    let mut sources: Vec<LockedSource<T>> = Vec::new();
    while sources.len() < size - 1
        invariant
            sources.len() <= size - 1,
        decreases size - 1 - sources.len(),
    {
        sources.push(first.duplicate());
    }
    sources.push(first);
    Ok((sender, sources))
}

/// A pool over either channel strategy: the submission endpoint and one
/// [`Worker`] per thread, each with the slot that owns its handle.
#[verifier::reject_recursive_types(T)]
pub struct PoolCore<T, H> {
    sender: crossbeam::channel::Sender<Message<T>>,
    workers: WorkerSet<H>,
}

impl<T: Send, H> PoolCore<T, H> {
    /// How many workers the pool was built with; fixed for its lifetime.
    pub closed spec fn size(self) -> nat {
        self.workers.size()
    }

    /// Whether the pool still accepts work.
    pub closed spec fn is_open(self) -> bool {
        self.workers.live()
    }

    /// The pool's invariant: at least one worker, worker `i` has identity
    /// `i`, and every handle slot is full until disposal, empty after.
    pub closed spec fn wf(self) -> bool {
        self.workers.wf()
    }

    /// The handle worker `i` holds, while the pool is open.
    pub closed spec fn held_at(self, i: int) -> H
        recommends
            0 <= i < self.size(),
            self.is_open(),
    {
        self.workers.held_at(i)
    }

    /// Assemble a pool from the submission endpoint and the handles of
    /// the freshly started worker threads, in identity order.
    pub fn assemble(sender: crossbeam::channel::Sender<Message<T>>, handles: Vec<H>) -> (p:
        PoolCore<T, H>)
        requires
            handles@.len() >= 1,
        ensures
            p.wf(),
            p.is_open(),
            p.size() == handles@.len(),
            forall|i: int| 0 <= i < handles@.len() ==> p.held_at(i) == handles@[i],
    {
        PoolCore { sender, workers: WorkerSet::assemble(handles) }
    }

    /// How many workers the pool runs.
    pub fn worker_count(&self) -> (n: usize)
        ensures
            n == self.size(),
    {
        self.workers.worker_count()
    }

    /// Whether disposal has begun.
    pub fn is_disposed(&self) -> (d: bool)
        ensures
            d == !self.is_open(),
    {
        self.workers.is_consumed()
    }

    /// Submit one task: wrap it in a message and enqueue it for whichever
    /// worker takes it first.  The queue is unbounded, so an open pool
    /// accepts every task; after disposal has begun the task is refused.
    /// A send refused because the workers are already gone is treated as
    /// a normal shutdown-window event, not surfaced as an error.
    pub fn execute(&self, task: T) -> (r: Result<(), PoolError>)
        ensures
            r is Ok <==> self.is_open(),
            !self.is_open() ==> r == Result::<(), PoolError>::Err(PoolError::PoolClosed),
    {
        if self.workers.is_consumed() {
            return Err(PoolError::PoolClosed);
        }
        let _accepted = send_message(&self.sender, Message::NewTask(task));
        Ok(())
    }

    /// The shutdown coordinator, minus the blocking joins: on the first
    /// call, send exactly one `Terminate` per worker — `size` signals for
    /// `size` workers, and no worker consumes more than one, so every
    /// worker eventually receives its own — then consume every handle
    /// slot and hand the handles back for the caller to join, in worker
    /// order.  Disposal is idempotent: a second call changes nothing and
    /// hands back no handle, so no thread can be joined twice.
    pub fn dispose(&mut self) -> (handles: Vec<H>)
        requires
            old(self).wf(),
        ensures
            final(self).wf(),
            !final(self).is_open(),
            final(self).size() == old(self).size(),
            old(self).is_open() ==> handles@.len() == old(self).size(),
            old(self).is_open() ==> forall|k: int|
                0 <= k < handles@.len() ==> handles@[k] == old(self).held_at(k),
            !old(self).is_open() ==> handles@.len() == 0 && *final(self) == *old(self),
    {
        if self.workers.is_consumed() {
            let handles: Vec<H> = Vec::new();
            return handles;
        }
        let terminates = self.workers.worker_count();
        let mut sent: usize = 0;
        while sent < terminates
            invariant
                sent <= terminates,
            decreases terminates - sent,
        {
            let _accepted = send_message(&self.sender, Message::Terminate);
            sent = sent + 1;
        }
        self.workers.consume_all()
    }
}

impl<T: Send, H> ThreadPool<T> for PoolCore<T, H> {
    open spec fn pool_open(&self) -> bool {
        self.is_open()
    }

    open spec fn pool_wf(&self) -> bool {
        self.wf()
    }

    fn execute(&self, task: T) -> (r: Result<(), PoolError>) {
        PoolCore::execute(self, task)
    }
}

} // verus!
