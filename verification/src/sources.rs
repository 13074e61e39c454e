//! The receiving sides of the two channel-based strategies.
//!
//! Both deliver `Message`s from the same unbounded channel; they differ in
//! how workers share the receiving end.  The lock-free strategy gives each
//! worker an independent clone of the endpoint and lets the channel
//! arbitrate concurrent consumption; the locked strategy shares one
//! endpoint behind an exclusive lock, so workers block-and-lock to pop
//! the next message in strict FIFO order.

use vstd::prelude::*;
use vstd::rwlock::RwLock;
use std::sync::Arc;
use crate::message::{message_to_task, Message};
use crate::chan::{clone_receiver, recv_message};
use crate::worker::{clone_arc, WorkSource};

verus! {

/// The lock-free multi-consumer strategy's receiving side: this worker's
/// own clone of the channel endpoint.
#[verifier::reject_recursive_types(T)]
pub struct MpmcSource<T> {
    receiver: crossbeam::channel::Receiver<Message<T>>,
}

impl<T: Send> MpmcSource<T> {
    /// Wrap a receiving endpoint for one worker.
    pub fn new(receiver: crossbeam::channel::Receiver<Message<T>>) -> MpmcSource<T> {
        MpmcSource { receiver }
    }

    /// Another endpoint of the same channel, for the next worker.
    pub fn duplicate(&self) -> MpmcSource<T> {
        MpmcSource { receiver: clone_receiver(&self.receiver) }
    }
}

impl<T: Send> WorkSource<T> for MpmcSource<T> {
    /// Block for the next message of this channel and read it through
    /// [`message_to_task`], whose contract fixes the decision: a task
    /// message hands its payload out; a `Terminate`, or a torn-down
    /// channel — which happens only once the submission side is gone and
    /// is a normal stop, not an error — stops this worker.
    fn next_task(&self) -> (m: Option<T>) {
        message_to_task(recv_message(&self.receiver))
    }
}

/// The locked single-receiver strategy's receiving side: one channel
/// endpoint shared by reference count among all workers, taken under an
/// exclusive lock for each pop.
#[verifier::reject_recursive_types(T)]
pub struct LockedSource<T> {
    shared: Arc<
        RwLock<
            crossbeam::channel::Receiver<Message<T>>,
            spec_fn(crossbeam::channel::Receiver<Message<T>>) -> bool,
        >,
    >,
}

impl<T: Send> LockedSource<T> {
    /// Put the one receiving endpoint behind a fresh lock.
    pub fn new(receiver: crossbeam::channel::Receiver<Message<T>>) -> LockedSource<T> {
        let lock = RwLock::new(
            receiver,
            Ghost(|v: crossbeam::channel::Receiver<Message<T>>| true),
        );
        LockedSource { shared: Arc::new(lock) }
    }

    /// Another reference-counted handle to the same locked endpoint, for
    /// the next worker.
    pub fn duplicate(&self) -> LockedSource<T> {
        LockedSource { shared: clone_arc(&self.shared) }
    }
}

impl<T: Send> WorkSource<T> for LockedSource<T> {
    /// Acquire the lock, block for the next message, release the lock,
    /// and read the message through [`message_to_task`], whose contract
    /// fixes the decision: a task message hands its payload out; a
    /// `Terminate` or a torn-down channel stops this worker.  No two
    /// workers hold the lock at once, so each message is popped by
    /// exactly one of them.
    fn next_task(&self) -> (m: Option<T>) {
        let (receiver, handle) = (&*self.shared).acquire_write();
        let got = recv_message(&receiver);
        handle.release_write(receiver);
        message_to_task(got)
    }
}

} // verus!
