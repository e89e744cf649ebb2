use pjsip_client::notify_channel::{notify_channel, Closed, NotifyReceiver, NotifySender, NOTIFY_QUEUE_DEPTH};
use pjsip_client::tokio_utils::TrySend;

#[test]
fn test_notify_channel() {
    let runtime = tokio::runtime::Builder::new_current_thread().build().unwrap();
    runtime.block_on(async {
        let (tx, mut rx) = notify_channel::<u32>();

        tokio::spawn(async move {
            let received = rx.rx.recv().await;
            let mut res = NotifyReceiver::accept(received).unwrap();
            assert_eq!(*res.as_ref(), 42);
            res.release();
        });

        let (entry, end_rx) = NotifySender::envelope(42);
        let queued = tx.tx.sender().send(entry).await.is_ok();
        let acknowledged = queued && end_rx.await.is_ok();
        NotifySender::<u32>::send_result(queued, acknowledged).unwrap();
    });
}

#[test]
fn the_sender_is_told_only_when_the_handle_is_released() {
    let (tx, mut rx) = notify_channel::<u32>();
    assert!(rx.try_recv().is_none());
    let (entry, mut end_rx) = NotifySender::envelope(42);
    assert!(matches!(tx.tx.try_send(entry), TrySend::Sent));
    let mut handle = rx.try_recv().unwrap();
    assert_eq!(*handle.as_ref(), 42);
    assert!(end_rx.try_recv().is_err());
    *handle.as_mut() += 1;
    assert_eq!(*handle.as_ref(), 43);
    assert!(end_rx.try_recv().is_err());
    handle.release();
    assert_eq!(end_rx.try_recv(), Ok(()));
    handle.release();
    assert_eq!(*handle.as_ref(), 43);
    assert!(rx.try_recv().is_none());
}

#[test]
fn the_queue_holds_one_value() {
    let (tx, mut rx) = notify_channel::<u8>();
    assert_eq!(NOTIFY_QUEUE_DEPTH, 1);
    assert_eq!(tx.queue_depth(), 1);
    assert_eq!(tx.tx.capacity(), tx.tx.sender().max_capacity());
    let (first, _first_end) = NotifySender::envelope(1);
    let (second, _second_end) = NotifySender::envelope(2);
    assert!(matches!(tx.tx.try_send(first), TrySend::Sent));
    assert!(matches!(tx.tx.try_send(second), TrySend::Full(_)));
    assert_eq!(*rx.try_recv().unwrap().as_ref(), 1);
}

#[test]
fn a_dropped_value_is_never_acknowledged() {
    let (tx, rx) = notify_channel::<u8>();
    let (entry, mut end_rx) = NotifySender::envelope(1);
    assert!(matches!(tx.tx.try_send(entry), TrySend::Sent));
    drop(rx);
    assert!(end_rx.try_recv().is_err());
    let (entry, _end_rx) = NotifySender::envelope(2);
    assert!(matches!(tx.tx.try_send(entry), TrySend::Closed(_)));
}

#[test]
fn send_succeeds_only_when_queued_and_acknowledged() {
    assert_eq!(NotifySender::<u8>::send_result(true, true), Ok(()));
    assert_eq!(NotifySender::<u8>::send_result(true, false), Err(Closed));
    assert_eq!(NotifySender::<u8>::send_result(false, false), Err(Closed));
    assert_eq!(NotifySender::<u8>::send_result(false, true), Err(Closed));
}

#[test]
fn the_end_of_the_queue_gives_no_handle() {
    assert!(NotifyReceiver::<u8>::accept(None).is_none());
}
