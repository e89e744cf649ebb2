//! A rendezvous between a sender that must not go on until its value was
//! dealt with, and the receiver that deals with it.
//!
//! The sender queues its value together with the sending end of an
//! acknowledgement, and then waits for the acknowledgement. The receiver
//! gets the value inside a handle and gives the acknowledgement when it
//! lets go of the handle, not when it receives it. The queue holds one
//! value. The waiting itself is the caller's; what is queued, when the
//! acknowledgement is given, and what the sender is told are decided here.

use vstd::prelude::*;
use crate::tokio_utils::{bounded_channel, mpsc_try_recv, oneshot_channel, oneshot_send, BoundedSender, TryRecv};

verus! {

/// The receiving side is gone: the value was not queued, or nobody will
/// ever acknowledge it.
#[derive(Debug, Clone, Copy, PartialEq, Eq, Structural)]
pub struct Closed;

/// The receiving half of the rendezvous.
#[verifier::reject_recursive_types(T)]
pub struct NotifyReceiver<T: Send> {
    pub rx: tokio::sync::mpsc::Receiver<(T, tokio::sync::oneshot::Sender<()>)>,
}

/// A received value that is being dealt with. The sender waits until the
/// handle is released.
pub struct NotifyReceiverHandle<T: Send> {
    end_tx: Option<tokio::sync::oneshot::Sender<()>>,
    value: T,
}

/// The sending half of the rendezvous.
#[verifier::reject_recursive_types(T)]
pub struct NotifySender<T: Send> {
    pub tx: BoundedSender<(T, tokio::sync::oneshot::Sender<()>)>,
}

/// How many values wait in the queue of a rendezvous: one.
pub const NOTIFY_QUEUE_DEPTH: usize = 1;

/// A rendezvous whose queue holds one value.
pub fn notify_channel<T: Send>() -> (halves: (NotifySender<T>, NotifyReceiver<T>))
    ensures
        halves.0.queue_depth() == NOTIFY_QUEUE_DEPTH,
{
    let (tx, rx) = bounded_channel::<(T, tokio::sync::oneshot::Sender<()>)>(NOTIFY_QUEUE_DEPTH);
    (NotifySender { tx }, NotifyReceiver { rx })
}

impl<T: Send> NotifyReceiver<T> {
    /// The handle for what the queue gave: one for an entry, none where the
    /// queue has ended. The handle holds the entry's value and has not
    /// acknowledged it.
    pub fn accept(received: Option<(T, tokio::sync::oneshot::Sender<()>)>) -> (handle: Option<
        NotifyReceiverHandle<T>,
    >)
        ensures
            handle is Some <==> received is Some,
            handle matches Some(h) ==> (received matches Some(entry) && h.spec_value() == entry.0
                && !h.is_acknowledged()),
    {
        match received {
            Some((value, end_tx)) => Some(NotifyReceiverHandle { end_tx: Some(end_tx), value }),
            None => None,
        }
    }

    /// Takes the queued value, if there is one now, without waiting. What
    /// the queue holds is not known beforehand; a handle that comes back has
    /// not acknowledged its value.
    pub fn try_recv(&mut self) -> (handle: Option<NotifyReceiverHandle<T>>)
        ensures
            handle matches Some(h) ==> !h.is_acknowledged(),
    {
        match mpsc_try_recv(&mut self.rx) {
            TryRecv::Received(entry) => Self::accept(Some(entry)),
            TryRecv::Empty => None,
            TryRecv::Disconnected => None,
        }
    }
}

impl<T: Send> NotifyReceiverHandle<T> {
    /// The value that was received.
    pub closed spec fn spec_value(&self) -> T {
        self.value
    }

    /// Whether the sender was told that the value was dealt with.
    pub closed spec fn is_acknowledged(&self) -> bool {
        self.end_tx is None
    }

    /// The value that was received.
    pub fn as_ref(&self) -> (value: &T)
        ensures
            *value == self.spec_value(),
    {
        &self.value
    }

    /// The value that was received, to be changed in place.
    pub fn as_mut(&mut self) -> (value: &mut T)
        ensures
            *value == old(self).spec_value(),
            final(self).spec_value() == *final(value),
            final(self).is_acknowledged() == old(self).is_acknowledged(),
    {
        &mut self.value
    }

    /// Tells the sender that the value was dealt with: the first time. After
    /// that the handle is acknowledged and nothing more is sent. The value
    /// stays.
    pub fn release(&mut self)
        ensures
            final(self).is_acknowledged(),
            final(self).spec_value() == old(self).spec_value(),
    {
        match self.end_tx.take() {
            Some(end_tx) => {
                let _ = oneshot_send(end_tx, ());
            },
            None => {},
        }
    }
}

impl<T: Send> NotifySender<T> {
    /// How many values the queue holds.
    pub open spec fn spec_queue_depth(&self) -> usize {
        self.tx.capacity()
    }

    /// How many values the queue holds.
    #[verifier::when_used_as_spec(spec_queue_depth)]
    pub fn queue_depth(&self) -> (depth: usize)
        ensures
            depth == self.spec_queue_depth(),
    {
        self.tx.capacity()
    }

    /// What a sender queues for a value, and what it then waits on: the
    /// value with the sending end of a fresh acknowledgement, and the
    /// receiving end of it.
    pub fn envelope(value: T) -> (made: ((T, tokio::sync::oneshot::Sender<()>), tokio::sync::oneshot::Receiver<()>))
        ensures
            ({
                let entry = made.0;
                entry.0 == value
            }),
    {
        let (end_tx, end_rx) = oneshot_channel::<()>();
        ((value, end_tx), end_rx)
    }

    /// What the sender is told: success only where the value was queued and
    /// then acknowledged. A value that the queue refused, and one whose
    /// acknowledgement will never come, mean that the receiving side is
    /// gone.
    pub fn send_result(queued: bool, acknowledged: bool) -> (result: Result<(), Closed>)
        ensures
            result is Ok <==> queued && acknowledged,
    {
        if queued && acknowledged {
            Ok(())
        } else {
            Err(Closed)
        }
    }
}

} // verus!
