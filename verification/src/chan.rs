//! The lock-free multi-producer/multi-consumer hand-off, relying on
//! crossbeam's unbounded channel.
//!
//! Each item below is a trusted binding to one function of
//! `crossbeam::channel`: what a call returns depends on what other threads
//! have sent or received, so the contracts state only what holds of every
//! outcome, and the pool's own logic is verified over whatever comes back.

use vstd::prelude::*;

verus! {

#[verifier::external_type_specification]
#[verifier::external_body]
#[verifier::reject_recursive_types(T)]
pub struct ExSender<T>(crossbeam::channel::Sender<T>);

#[verifier::external_type_specification]
#[verifier::external_body]
#[verifier::reject_recursive_types(T)]
pub struct ExReceiver<T>(crossbeam::channel::Receiver<T>);

/// Relies on crossbeam::channel::unbounded: returns the two endpoints of a
/// fresh channel of unbounded capacity, on which `send` never blocks.
#[verifier::external_body]
pub(crate) fn new_channel<M: Send>() -> (ends: (
    crossbeam::channel::Sender<M>,
    crossbeam::channel::Receiver<M>,
))
{
    crossbeam::channel::unbounded()
}

/// Relies on crossbeam::channel::Sender::send: enqueues the message unless
/// every receiving endpoint has been dropped.  Returns whether the message
/// was accepted; a refused message is dropped with the dead channel.
#[verifier::external_body]
pub(crate) fn send_message<M: Send>(sender: &crossbeam::channel::Sender<M>, m: M) -> (accepted:
    bool)
{
    sender.send(m).is_ok()
}

/// Relies on crossbeam::channel::Receiver::recv: blocks until a message
/// arrives and hands it to exactly one caller, or returns `None` once the
/// channel is empty and every sending endpoint has been dropped.
#[verifier::external_body]
pub(crate) fn recv_message<M: Send>(receiver: &crossbeam::channel::Receiver<M>) -> (m: Option<M>)
{
    match receiver.recv() {
        Ok(m) => Some(m),
        Err(_) => None,
    }
}

/// Relies on crossbeam::channel::Receiver::clone: returns another receiving
/// endpoint of the same channel.
#[verifier::external_body]
pub(crate) fn clone_receiver<M: Send>(receiver: &crossbeam::channel::Receiver<M>) -> (r:
    crossbeam::channel::Receiver<M>)
{
    receiver.clone()
}

} // verus!
