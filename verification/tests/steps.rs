use blocking_mpsc::mpsc::{finish_recv, finish_send};
use blocking_mpsc::step::{recv_step, send_step, RecvStep, SendStep};
use tokio::sync::mpsc;
use tokio::sync::mpsc::error::{SendError, TryRecvError, TrySendError};

#[test]
fn recv_step_returns_a_message_as_it_came() {
    assert!(matches!(recv_step(Ok(17u32)), RecvStep::Done(Some(17))));
    assert!(matches!(recv_step(Ok("text")), RecvStep::Done(Some("text"))));
}

#[test]
fn recv_step_ends_on_a_closed_channel() {
    assert!(matches!(
        recv_step::<u32>(Err(TryRecvError::Closed)),
        RecvStep::Done(None)
    ));
}

#[test]
fn recv_step_parks_on_an_empty_channel_only() {
    assert!(matches!(
        recv_step::<u32>(Err(TryRecvError::Empty)),
        RecvStep::Park
    ));
    assert!(!matches!(recv_step(Ok(0u32)), RecvStep::Park));
    assert!(!matches!(
        recv_step::<u32>(Err(TryRecvError::Closed)),
        RecvStep::Park
    ));
}

#[test]
fn send_step_ends_on_an_enqueued_message() {
    assert!(matches!(send_step::<u32>(Ok(())), SendStep::Done(Ok(()))));
}

#[test]
fn send_step_returns_the_message_of_a_closed_channel() {
    assert!(matches!(
        send_step(Err(TrySendError::Closed(23u32))),
        SendStep::Done(Err(SendError(23)))
    ));
}

#[test]
fn send_step_parks_on_a_full_channel_only() {
    assert!(matches!(
        send_step(Err(TrySendError::Full(29u32))),
        SendStep::Park(29)
    ));
    assert!(!matches!(send_step::<u32>(Ok(())), SendStep::Park(_)));
    assert!(!matches!(
        send_step(Err(TrySendError::Closed(29u32))),
        SendStep::Park(_)
    ));
}

#[test]
fn finish_recv_leaves_the_channel_alone_unless_it_was_empty() {
    let (mut tx, mut rx) = mpsc::channel(4);
    tx.try_send(1u32).unwrap();
    tx.try_send(2u32).unwrap();

    assert_eq!(finish_recv(&mut rx, Ok(50)), Some(50));
    assert_eq!(finish_recv(&mut rx, Err(TryRecvError::Closed)), None);
    // Both messages are still buffered; an empty attempt goes to the channel.
    assert_eq!(finish_recv(&mut rx, Err(TryRecvError::Empty)), Some(1));
    assert_eq!(finish_recv(&mut rx, Err(TryRecvError::Empty)), Some(2));
    drop(tx);
    assert_eq!(finish_recv(&mut rx, Err(TryRecvError::Empty)), None);
}

#[test]
fn finish_send_leaves_the_channel_alone_unless_it_was_full() {
    let (mut tx, mut rx) = mpsc::channel(4);

    assert!(finish_send(&mut tx, Ok(())).is_ok());
    let rejected = finish_send(&mut tx, Err(TrySendError::Closed(60u32))).unwrap_err();
    assert_eq!(rejected.0, 60);
    assert_eq!(rx.try_recv(), Err(TryRecvError::Empty));

    // A full attempt is sent again, with the same message.
    assert!(finish_send(&mut tx, Err(TrySendError::Full(61u32))).is_ok());
    assert_eq!(rx.try_recv(), Ok(61));
    assert_eq!(rx.try_recv(), Err(TryRecvError::Empty));
}

#[test]
fn finish_send_returns_the_message_when_the_retry_finds_the_channel_closed() {
    let (mut tx, rx) = mpsc::channel(4);
    drop(rx);
    let rejected = finish_send(&mut tx, Err(TrySendError::Full(String::from("again")))).unwrap_err();
    assert_eq!(rejected.0, "again");
}
