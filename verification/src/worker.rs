//! One worker of a pool: its stable identity, the ownership slot that
//! holds its thread handle until shutdown consumes it exactly once, and
//! the dispatch step its thread repeats.
//!
//! The thread itself is plumbing that the surrounding program supplies: it
//! runs [`worker_step`] until the step says to stop.  Verus asks every
//! loop here for a termination measure, and a worker waits for work
//! without any bound, so that outermost loop stands with the thread; each
//! step of it is verified here.

use vstd::prelude::*;
use std::sync::Arc;

verus! {

/// The receiving side of a work channel, as one worker sees it.
///
/// `next_task` blocks until it can hand back either `Some` task, owned by
/// the calling worker alone, or `None` once the worker must stop: every
/// strategy delivers each submitted task to exactly one worker, and during
/// shutdown eventually hands each worker its `None`.  What a single call
/// returns depends on the other threads, so nothing more is stated; the
/// dispatch around it is verified for every answer.
pub trait WorkSource<T>: Sized {
    fn next_task(&self) -> (m: Option<T>);
}

/// Relies on std's Arc::clone: returns a handle to the same shared value.
#[verifier::external_body]
pub(crate) fn clone_arc<R>(arc: &Arc<R>) -> (r: Arc<R>)
    ensures
        r == *arc,
{
    arc.clone()
}

/// What a worker does with what its source handed back — the worker's
/// state machine, one transition: a task is executed through the runner,
/// synchronously and exactly once, and the worker keeps running (`stop`
/// is false); no task means the stop signal reached this worker, so it
/// stops (`stop` is true).  The worker runs exactly the tasks its
/// messages carry, never past a stop.
pub fn dispatch_task<T, R>(m: Option<T>, runner: &R) -> (stop: bool) where R: Fn(T)
    requires
        m matches Some(t) ==> call_requires(*runner, (t,)),
    ensures
        stop == (m is None),
        m matches Some(t) ==> call_ensures(*runner, (t,), ()),
{
    match m {
        Some(t) => {
            (*runner)(t);
            false
        },
        None => true,
    }
}

/// One dispatch step of a worker's loop: take the next message from the
/// work source and hand it to [`dispatch_task`] — so the step runs the
/// task the message carried, and its `stop` is true exactly when the
/// source handed back `None`, this worker's stop signal.  The thread
/// around it repeats this until `stop`; a worker whose step said `stop`
/// never takes another step, so it consumes at most one stop signal.
pub fn worker_step<T, S, R>(source: &S, runner: &R) -> (stop: bool) where
    S: WorkSource<T>,
    R: Fn(T),

    requires
        forall|t: T| call_requires(*runner, (t,)),
{
    dispatch_task(source.next_task(), runner)
}

/// One worker: a stable identity and the slot that owns the thread handle
/// until shutdown consumes it.  The handle type is whatever the
/// surrounding program joins threads by; this module only guards that the
/// slot empties exactly once.
pub struct Worker<H> {
    id: usize,
    handle: Option<H>,
}

impl<H> Worker<H> {
    /// The worker's stable identity within its pool.
    pub closed spec fn wid(self) -> usize {
        self.id
    }

    /// Whether the ownership slot still holds the thread handle: filled at
    /// construction, emptied exactly once when the handle is consumed for
    /// joining.
    pub closed spec fn slot_full(self) -> bool {
        self.handle is Some
    }

    /// The handle the slot holds, while it holds one.
    pub closed spec fn held(self) -> H
        recommends
            self.slot_full(),
    {
        self.handle->Some_0
    }

    /// The worker's identity, for callers that log it.
    pub fn id(&self) -> (i: usize)
        ensures
            i == self.wid(),
    {
        self.id
    }

    /// A worker whose freshly started thread is owned through `handle`.
    pub fn new(id: usize, handle: H) -> (w: Worker<H>)
        ensures
            w.wid() == id,
            w.slot_full(),
            w.held() == handle,
    {
        Worker { id, handle: Some(handle) }
    }

    /// Consume the thread handle from its slot.  After the first call the
    /// slot stays empty, so no handle can be handed out, or joined, twice.
    pub fn take_handle(&mut self) -> (h: Option<H>)
        ensures
            final(self).wid() == old(self).wid(),
            !final(self).slot_full(),
            h is Some <==> old(self).slot_full(),
            old(self).slot_full() ==> h == Some(old(self).held()),
    {
        self.handle.take()
    }
}

/// The fixed set of workers of one pool: worker `i` carries identity `i`,
/// and all the handle slots empty together, exactly once, when the set is
/// consumed for joining.
pub struct WorkerSet<H> {
    workers: Vec<Worker<H>>,
    consumed: bool,
}

impl<H> WorkerSet<H> {
    /// How many workers the set was built with; fixed for its lifetime.
    pub closed spec fn size(self) -> nat {
        self.workers@.len()
    }

    /// Whether the handle slots are still full: true from assembly until
    /// the one consumption.
    pub closed spec fn live(self) -> bool {
        !self.consumed
    }

    /// The handle worker `i` holds, while the set is live.
    pub closed spec fn held_at(self, i: int) -> H
        recommends
            0 <= i < self.size(),
            self.live(),
    {
        self.workers@[i].held()
    }

    /// The set's invariant: at least one worker, worker `i` has identity
    /// `i`, and every slot is full until the set is consumed, empty
    /// after.
    pub closed spec fn wf(self) -> bool {
        &&& self.workers@.len() >= 1
        &&& forall|i: int|
            0 <= i < self.workers@.len() ==> (#[trigger] self.workers@[i]).wid() == i
        &&& forall|i: int|
            0 <= i < self.workers@.len() ==> ((#[trigger] self.workers@[i]).slot_full()
                <==> !self.consumed)
    }

    /// Wrap the handles of freshly started worker threads, giving worker
    /// `i` the `i`th handle.
    pub fn assemble(handles: Vec<H>) -> (s: WorkerSet<H>)
        requires
            handles@.len() >= 1,
        ensures
            s.wf(),
            s.live(),
            s.size() == handles@.len(),
            forall|i: int| 0 <= i < handles@.len() ==> s.held_at(i) == handles@[i],
    {
        let mut workers: Vec<Worker<H>> = Vec::new();
        let mut handles = handles;
        let ghost orig = handles@;
        while handles.len() > 0
            invariant
                workers@.len() + handles@.len() == orig.len(),
                forall|j: int|
                    0 <= j < handles@.len() ==> handles@[j] == orig[workers@.len() + j],
                forall|i: int|
                    0 <= i < workers@.len() ==> (#[trigger] workers@[i]).wid() == i,
                forall|i: int| 0 <= i < workers@.len() ==> (#[trigger] workers@[i]).slot_full(),
                forall|i: int|
                    0 <= i < workers@.len() ==> (#[trigger] workers@[i]).held() == orig[i],
            decreases handles@.len(),
        {
            let h = handles.remove(0);
            let id = workers.len();
            workers.push(Worker::new(id, h));
        }
        WorkerSet { workers, consumed: false }
    }

    /// How many workers the set holds.
    pub fn worker_count(&self) -> (n: usize)
        ensures
            n == self.size(),
    {
        self.workers.len()
    }

    /// Whether the set was already consumed.
    pub fn is_consumed(&self) -> (d: bool)
        ensures
            d == !self.live(),
    {
        self.consumed
    }

    /// Empty every slot, exactly once, and hand the handles back in
    /// worker order for the caller to join.  A second call finds the set
    /// consumed, changes nothing and hands back no handle, so no thread
    /// can be joined twice.
    pub fn consume_all(&mut self) -> (handles: Vec<H>)
        requires
            old(self).wf(),
        ensures
            final(self).wf(),
            !final(self).live(),
            final(self).size() == old(self).size(),
            old(self).live() ==> handles@.len() == old(self).size(),
            old(self).live() ==> forall|k: int|
                0 <= k < handles@.len() ==> handles@[k] == old(self).held_at(k),
            !old(self).live() ==> handles@.len() == 0 && *final(self) == *old(self),
    {
        let mut handles: Vec<H> = Vec::new();
        if self.consumed {
            return handles;
        }
        self.consumed = true;
        let count = self.workers.len();
        let mut i: usize = 0;
        while i < count
            invariant
                old(self).wf(),
                old(self).live(),
                count == old(self).size(),
                count == self.workers@.len(),
                i <= count,
                handles@.len() == i,
                self.consumed,
                forall|k: int|
                    0 <= k < count ==> (#[trigger] self.workers@[k]).wid() == k,
                forall|k: int| 0 <= k < i ==> !(#[trigger] self.workers@[k]).slot_full(),
                forall|k: int|
                    i <= k < count ==> #[trigger] self.workers@[k] == old(self).workers@[k],
                forall|k: int| 0 <= k < i ==> handles@[k] == old(self).held_at(k),
            decreases count - i,
        {
            let mut w = self.workers.remove(i);
            let h = w.take_handle();
            self.workers.insert(i, w);
            handles.push(h.unwrap());
            i = i + 1;
        }
        handles
    }
}

} // verus!
