//! The channel collaborator: the handles and errors of `tokio::sync::mpsc`
//! as the verifier sees them, and what is taken on trust about the channel's
//! four primitive operations.
//!
//! The buffer behind a handle is shared with other threads, so nothing here
//! says what an operation finds in it. What is stated holds of every outcome:
//! a message that the channel turns away comes back unchanged.

use tokio::sync::mpsc::error::{SendError, TryRecvError, TrySendError};
use tokio::sync::mpsc::{Receiver, Sender};
use vstd::prelude::*;

verus! {

/// `tokio::sync::mpsc::Receiver`, the one consumer handle of a bounded
/// channel. Its fields are private; the verifier sees nothing inside it.
#[verifier::external_type_specification]
#[verifier::external_body]
#[verifier::reject_recursive_types(T)]
pub struct ExReceiver<T>(Receiver<T>);

/// `tokio::sync::mpsc::Sender`, a producer handle of a bounded channel. Its
/// fields are private; the verifier sees nothing inside it.
#[verifier::external_type_specification]
#[verifier::external_body]
#[verifier::reject_recursive_types(T)]
pub struct ExSender<T>(Sender<T>);

/// `tokio::sync::mpsc::error::SendError`, the error of a send on a closed
/// channel: a tuple struct whose one public field is the message that was
/// turned away.
#[verifier::external_type_specification]
pub struct ExSendError<T>(SendError<T>);

/// `tokio::sync::mpsc::error::TryRecvError`, why an immediate receive gave no
/// message: `Empty` while producers remain, `Closed` once they are gone and
/// the buffer is drained.
#[verifier::external_type_specification]
pub struct ExTryRecvError(TryRecvError);

/// `tokio::sync::mpsc::error::TrySendError`, why an immediate send did not
/// enqueue: `Full` or `Closed`, each holding the message that was turned away.
#[verifier::external_type_specification]
pub struct ExTrySendError<T>(TrySendError<T>);

/// `Receiver::try_recv`: pops the next buffered message without waiting.
/// Which of the three outcomes comes back depends on what producers on other
/// threads have done, so nothing is claimed of the result.
pub assume_specification<T>[ Receiver::<T>::try_recv ](rx: &mut Receiver<T>) -> (attempt: Result<T, TryRecvError>)
;

/// `Sender::try_send`: enqueues `message` if a slot is free, without waiting.
/// Whether it succeeds depends on the consumer and the other producers; what
/// is claimed is that either error hands back the very message passed in.
pub assume_specification<T>[ Sender::<T>::try_send ](tx: &mut Sender<T>, message: T) -> (attempt: Result<(), TrySendError<T>>)
    ensures
        attempt matches Err(TrySendError::Full(rejected)) ==> rejected == message,
        attempt matches Err(TrySendError::Closed(rejected)) ==> rejected == message,
;

/// Drives `Receiver::recv` to completion with `futures::executor::block_on`,
/// parking the calling thread at every suspension point.
///
/// Nothing is claimed of the result: `Some` with the next message, or `None`
/// once every producer is gone and the buffer is drained, as the other
/// threads decide. The call returns only when one of the two has happened.
/// `block_on` panics on a thread that is already running one of the
/// executors of `futures`; that is a state of the thread, not of the
/// arguments, so no precondition can rule it out.
#[verifier::external_body]
pub(crate) fn park_on_recv<T>(rx: &mut Receiver<T>) -> (received: Option<T>) {
    futures::executor::block_on(rx.recv())
}

/// Drives `Sender::send` to completion with `futures::executor::block_on`,
/// parking the calling thread at every suspension point.
///
/// Whether the send succeeds depends on the consumer; what is claimed is that
/// the error of a closed channel hands back the very message passed in. The
/// call returns only when a slot was taken or the channel was closed.
/// `block_on` panics on a thread that is already running one of the
/// executors of `futures`; that is a state of the thread, not of the
/// arguments, so no precondition can rule it out.
#[verifier::external_body]
pub(crate) fn park_on_send<T>(tx: &mut Sender<T>, message: T) -> (sent: Result<(), SendError<T>>)
    ensures
        sent matches Err(rejected) ==> rejected.0 == message,
{
    futures::executor::block_on(tx.send(message))
}

} // verus!
