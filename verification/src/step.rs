//! What an optimistic operation does once the channel has answered its
//! immediate attempt.
//!
//! The channel's answer is decided by other threads; the step that follows it
//! is not. Each decision here is a total function of the attempt's outcome, so
//! it is stated and proved for every outcome there is.

use tokio::sync::mpsc::error::{SendError, TryRecvError, TrySendError};
use vstd::prelude::*;

verus! {

/// The step that follows an immediate receive.
#[derive(Debug)]
pub enum RecvStep<T> {
    /// The receive is over and this is its result.
    Done(Option<T>),
    /// Nothing is buffered and producers remain: wait on the suspending
    /// receive.
    Park,
}

/// The step that follows an immediate send.
#[derive(Debug)]
pub enum SendStep<T> {
    /// The send is over and this is its result.
    Done(Result<(), SendError<T>>),
    /// Every slot is taken and the consumer remains: wait on the suspending
    /// send with this message, the one that was turned away.
    Park(T),
}

/// The step that an immediate receive calls for: a message is returned as it
/// came, a closed channel ends the stream, and only an empty, open channel is
/// waited on.
pub open spec fn recv_step_of<T>(attempt: Result<T, TryRecvError>) -> RecvStep<T> {
    match attempt {
        Ok(message) => RecvStep::Done(Some(message)),
        Err(TryRecvError::Empty) => RecvStep::Park,
        Err(TryRecvError::Closed) => RecvStep::Done(None),
    }
}

/// The step that an immediate send calls for: an enqueued message ends the
/// send, a closed channel returns the message in the error, and only a full,
/// open channel is waited on, with the same message.
pub open spec fn send_step_of<T>(attempt: Result<(), TrySendError<T>>) -> SendStep<T> {
    match attempt {
        Ok(()) => SendStep::Done(Ok(())),
        Err(TrySendError::Full(message)) => SendStep::Park(message),
        Err(TrySendError::Closed(message)) => SendStep::Done(Err(SendError(message))),
    }
}

/// Decides how an optimistic receive goes on after its immediate attempt. It
/// waits if and only if the attempt found the channel empty.
pub fn recv_step<T>(attempt: Result<T, TryRecvError>) -> (step: RecvStep<T>)
    ensures
        step == recv_step_of(attempt),
        step is Park <==> attempt == Err::<T, TryRecvError>(TryRecvError::Empty),
{
    match attempt {
        Ok(message) => RecvStep::Done(Some(message)),
        Err(TryRecvError::Empty) => RecvStep::Park,
        Err(TryRecvError::Closed) => RecvStep::Done(None),
    }
}

/// Decides how an optimistic send goes on after its immediate attempt. It
/// waits if and only if the attempt found the channel full.
pub fn send_step<T>(attempt: Result<(), TrySendError<T>>) -> (step: SendStep<T>)
    ensures
        step == send_step_of(attempt),
        step is Park <==> attempt matches Err(TrySendError::Full(_)),
{
    match attempt {
        Ok(()) => SendStep::Done(Ok(())),
        Err(TrySendError::Full(message)) => SendStep::Park(message),
        Err(TrySendError::Closed(message)) => SendStep::Done(Err(SendError(message))),
    }
}

/// The fast path never waits: an attempt that found a message, or a free
/// slot, ends the operation at once, with that message, or with `Ok`.
pub proof fn lemma_ready_attempt_never_parks<T>(message: T)
    ensures
        recv_step_of(Ok::<T, TryRecvError>(message)) == RecvStep::Done(Some(message)),
        send_step_of(Ok::<(), TrySendError<T>>(())) == SendStep::<T>::Done(Ok(())),
{
}

/// A channel that answers "closed" ends the operation at once, however often
/// it is asked: the receive gives `None`, and the send gives back, inside its
/// error, exactly the message that it was given.
pub proof fn lemma_closed_attempt_ends<T>(message: T)
    ensures
        recv_step_of(Err::<T, TryRecvError>(TryRecvError::Closed)) == RecvStep::<T>::Done(None),
        send_step_of(Err::<(), TrySendError<T>>(TrySendError::Closed(message)))
            == SendStep::Done(Err(SendError(message))),
{
}

/// A channel that answers "empty" or "full" is waited on, and a send that
/// waits does so with the message that was turned away, unchanged.
pub proof fn lemma_busy_attempt_parks<T>(message: T)
    ensures
        recv_step_of(Err::<T, TryRecvError>(TryRecvError::Empty)) == RecvStep::<T>::Park,
        send_step_of(Err::<(), TrySendError<T>>(TrySendError::Full(message))) == SendStep::Park(
            message,
        ),
{
}

} // verus!
