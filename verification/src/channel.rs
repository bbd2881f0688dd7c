//! The channel between a reporter and its writer: `std::sync::mpsc`.

use vstd::prelude::*;
use std::sync::mpsc::Receiver;
use std::sync::mpsc::Sender;

verus! {

/// `std::sync::mpsc::Sender`, the half of a channel that puts messages in.
#[verifier::external_type_specification]
#[verifier::external_body]
#[verifier::reject_recursive_types(T)]
pub struct ExSender<T>(Sender<T>);

/// `std::sync::mpsc::Receiver`, the half of a channel that takes messages out.
#[verifier::external_type_specification]
#[verifier::external_body]
#[verifier::reject_recursive_types(T)]
pub struct ExReceiver<T>(Receiver<T>);

/// `Sender::send`: puts `message` on the channel without waiting. It fails when
/// the receiving half has been dropped, and then hands the message back. That
/// is all that is claimed here: whether the call succeeds is up to the other
/// end of the channel.
#[verifier::external_body]
pub(crate) fn send<M>(sender: &Sender<M>, message: M) -> (r: Result<(), M>)
    ensures
        r is Err ==> r->Err_0 == message,
{
    match sender.send(message) {
        Ok(()) => Ok(()),
        Err(refused) => Err(refused.0),
    }
}

/// `Receiver::recv`: waits for the next message. `None` stands for the error it
/// returns once every sender is gone and the channel is empty. Nothing is
/// claimed of the message, which comes from another thread; the call returns
/// only when a message has come or the channel has closed.
#[verifier::external_body]
pub(crate) fn receive<M>(receiver: &Receiver<M>) -> (r: Option<M>) {
    match receiver.recv() {
        Ok(message) => Some(message),
        Err(_) => None,
    }
}

} // verus!
