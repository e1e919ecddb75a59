//! Blocking receive and send on the handles of a bounded channel.
//!
//! Each optimistic operation is an immediate attempt on the channel followed
//! by [`finish_recv`] or [`finish_send`], which carries the attempt to the
//! operation's result. Their contracts say, for every outcome of the attempt,
//! what is returned and whether the handle is used again.
//!
//! The blocking operations park the calling thread for as long as the channel
//! makes them wait, and there is no timeout. They belong on a thread that is
//! set aside for blocking work, never on a worker of the cooperative
//! scheduler, which they would stall, and never inside a running executor of
//! `futures`, where the driver that parks the thread panics.

use crate::channel::{park_on_recv, park_on_send};
use crate::step::{recv_step, recv_step_of, send_step, send_step_of, RecvStep, SendStep};
use tokio::sync::mpsc::error::{SendError, TryRecvError, TrySendError};
use tokio::sync::mpsc::{Receiver, Sender};
use vstd::prelude::*;

verus! {

/// Receiving from a thread that may park.
///
/// Either operation returns `Some` with the next message in the channel's
/// order, or `None` once every producer is gone and the buffer is drained;
/// after that it returns `None` on every call. Which of the two comes back
/// rests with the producers, so the trait promises nothing of the result.
pub trait BlockingRecv<T> {
    /// Tries an immediate receive first and waits only if the channel is
    /// empty and still open.
    fn optimistic_blocking_recv(&mut self) -> (received: Option<T>);

    /// Waits until a message is available or the channel is closed and
    /// drained.
    fn blocking_recv(&mut self) -> (received: Option<T>);
}

/// Sending from a thread that may park.
///
/// Either operation returns `Ok` once the message is enqueued, or an error
/// once the consumer is gone. Which of the two comes back rests with the
/// consumer. What holds of every outcome is that no message is lost: a failed
/// send returns, inside its error, exactly the message that it was given.
pub trait BlockingSend<T> {
    /// Tries an immediate send first and waits only if the channel is full
    /// and still open.
    fn optimistic_blocking_send(&mut self, message: T) -> (sent: Result<(), SendError<T>>)
        ensures
            sent matches Err(rejected) ==> rejected.0 == message,
    ;

    /// Waits until the message is enqueued or the channel is closed.
    fn blocking_send(&mut self, message: T) -> (sent: Result<(), SendError<T>>)
        ensures
            sent matches Err(rejected) ==> rejected.0 == message,
    ;
}

/// Carries an immediate receive on `rx`, whose outcome was `attempt`, to the
/// result of the optimistic receive.
///
/// A message is returned as it came, and a closed channel gives `None`; in
/// both cases `rx` is left as it was, so the call did not wait. Only an
/// empty, open channel is waited on, and then the result is whatever the
/// blocking receive returns.
pub fn finish_recv<T>(rx: &mut Receiver<T>, attempt: Result<T, TryRecvError>) -> (received: Option<T>)
    ensures
        recv_step_of(attempt) matches RecvStep::Done(result) ==> (received == result && *final(rx)
            == *old(rx)),
{
    match recv_step(attempt) {
        RecvStep::Done(received) => received,
        RecvStep::Park => rx.blocking_recv(),
    }
}

/// Carries an immediate send on `tx`, whose outcome was `attempt`, to the
/// result of the optimistic send.
///
/// An enqueued message gives `Ok`, and a closed channel gives the error with
/// the message in it; in both cases `tx` is left as it was, so the call did
/// not wait. Only a full, open channel is waited on, with the message that
/// was turned away; if that send fails too, its error holds the same message.
pub fn finish_send<T>(tx: &mut Sender<T>, attempt: Result<(), TrySendError<T>>) -> (sent: Result<(), SendError<T>>)
    ensures
        send_step_of(attempt) matches SendStep::Done(result) ==> (sent == result && *final(tx)
            == *old(tx)),
        send_step_of(attempt) matches SendStep::Park(message) ==> (sent matches Err(rejected)
            ==> rejected.0 == message),
{
    match send_step(attempt) {
        SendStep::Done(sent) => sent,
        SendStep::Park(message) => tx.blocking_send(message),
    }
}

impl<T> BlockingRecv<T> for Receiver<T> {
    fn optimistic_blocking_recv(&mut self) -> (received: Option<T>) {
        let attempt = self.try_recv();
        finish_recv(self, attempt)
    }

    fn blocking_recv(&mut self) -> (received: Option<T>) {
        park_on_recv(self)
    }
}

impl<T> BlockingSend<T> for Sender<T> {
    fn optimistic_blocking_send(&mut self, message: T) -> (sent: Result<(), SendError<T>>) {
        let attempt = self.try_send(message);
        finish_send(self, attempt)
    }

    fn blocking_send(&mut self, message: T) -> (sent: Result<(), SendError<T>>) {
        park_on_send(self, message)
    }
}

} // verus!
