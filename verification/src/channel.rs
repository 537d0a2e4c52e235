//! The receiving end of a `std::sync::mpsc` channel.
//!
//! Receiving takes an item away, so it is done here through `&mut`: a receiver's
//! value stands for the channel end together with what has been taken from it,
//! and after a call of either function below it is another value.

use std::sync::mpsc;

use vstd::prelude::*;

verus! {

/// `std::sync::mpsc::Receiver`, the handle on a producer's live stream.
#[verifier::external_type_specification]
#[verifier::external_body]
#[verifier::reject_recursive_types(T)]
pub struct ExReceiver<T>(std::sync::mpsc::Receiver<T>);

/// `std::sync::mpsc::RecvError`: the channel is empty and its senders are gone.
#[verifier::external_type_specification]
#[verifier::external_body]
pub struct ExRecvError(std::sync::mpsc::RecvError);

/// `std::sync::mpsc::TryRecvError`: nothing is queued, whether or not a sender
/// is left.
#[verifier::external_type_specification]
#[verifier::external_body]
pub struct ExTryRecvError(std::sync::mpsc::TryRecvError);

/// `Receiver::recv`. What it returns rests on what other threads have sent and
/// when, so nothing is claimed of it: neither that items come in the order sent
/// nor that an error means that every sender is gone. It blocks while nothing is
/// queued and a sender is left.
#[verifier::external_body]
pub(crate) fn receive<T>(rx: &mut mpsc::Receiver<T>) -> (received: Result<T, mpsc::RecvError>) {
    rx.recv()
}

/// `Receiver::try_recv`. What it returns rests on what other threads have sent
/// and when, so nothing is claimed of it, as with [`receive`]. It does not block
/// and does not panic.
#[verifier::external_body]
pub(crate) fn receive_queued<T>(rx: &mut mpsc::Receiver<T>) -> (received: Result<
    T,
    mpsc::TryRecvError,
>)
    no_unwind
{
    rx.try_recv()
}

} // verus!
