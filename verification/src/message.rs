//! The message protocol between the submission side of a pool and its
//! workers, and the error type of the pool operations.

use vstd::prelude::*;

verus! {

/// One message handed from the submission side to exactly one worker.
///
/// A `NewTask` carries the payload of one unit of work; `Terminate` tells
/// the worker that receives it to stop after no more work is coming.
/// Exactly one `Terminate` is sent per worker during shutdown.
pub enum Message<T> {
    NewTask(T),
    Terminate,
}

/// What one received message means to the worker that consumed it: a
/// task message hands its payload out to be run; anything else — the
/// stop signal, or no message at all because the channel was torn down
/// (expected only in shutdown race windows, and treated as a normal stop,
/// not an error) — stops the worker.
pub fn message_to_task<T>(m: Option<Message<T>>) -> (r: Option<T>)
    ensures
        m matches Some(Message::NewTask(t)) ==> r == Some(t),
        !(m matches Some(Message::NewTask(_))) ==> r is None,
{
    match m {
        Some(Message::NewTask(t)) => Some(t),
        Some(Message::Terminate) => None,
        None => None,
    }
}

/// Why a pool operation was refused.
#[derive(Clone, Copy, PartialEq, Eq, Structural, Debug)]
pub enum PoolError {
    /// A pool of zero workers was asked for; construction refuses it
    /// instead of building a pool that could never run a task.
    ZeroSize,
    /// A task was submitted after disposal of the pool had begun.
    PoolClosed,
}

impl PoolError {
    /// A short description, for callers that print errors.
    pub fn describe(&self) -> (r: &'static str)
        ensures
            (*self is ZeroSize) ==> r@ == "pool size must be at least 1"@,
            (*self is PoolClosed) ==> r@ == "pool is shutting down"@,
    {
        match self {
            PoolError::ZeroSize => "pool size must be at least 1",
            PoolError::PoolClosed => "pool is shutting down",
        }
    }
}

} // verus!
