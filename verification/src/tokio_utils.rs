//! The channel operations that the call-control logic relies on.
//!
//! The channels are tokio's. Their two halves are used from different
//! threads, so nothing here speaks of what a channel holds: each contract
//! states only what is true of every outcome of the call.

use vstd::prelude::*;
use vstd::string::StringExecFns;
use crate::decimal::{decimal, push_decimal};
use crate::engine::EngineRequest;

verus! {

#[verifier::external_type_specification]
#[verifier::external_body]
#[verifier::reject_recursive_types(T)]
pub struct ExMpscSender<T>(tokio::sync::mpsc::Sender<T>);

#[verifier::external_type_specification]
#[verifier::external_body]
#[verifier::reject_recursive_types(T)]
pub struct ExMpscReceiver<T>(tokio::sync::mpsc::Receiver<T>);

#[verifier::external_type_specification]
#[verifier::external_body]
#[verifier::reject_recursive_types(T)]
pub struct ExOneshotSender<T>(tokio::sync::oneshot::Sender<T>);

#[verifier::external_type_specification]
#[verifier::external_body]
#[verifier::reject_recursive_types(T)]
pub struct ExOneshotReceiver<T>(tokio::sync::oneshot::Receiver<T>);

/// The error of waiting on a one-shot receiver. Nothing here waits on one;
/// the type is declared because the receiver is a future with this error
/// in its output, and cannot be declared without it.
#[verifier::external_type_specification]
#[verifier::external_body]
pub struct ExOneshotRecvError(tokio::sync::oneshot::error::RecvError);

/// How a non-blocking send ended. A message that was not queued comes back.
pub enum TrySend<T> {
    /// The message is in the queue.
    Sent,
    /// The queue is at its capacity.
    Full(T),
    /// The receiving half is closed or gone.
    Closed(T),
}

/// How a non-blocking receive ended.
pub enum TryRecv<T> {
    /// A message was taken from the queue.
    Received(T),
    /// Nothing is queued, but a sender is still alive.
    Empty,
    /// Nothing is queued and nothing will ever be.
    Disconnected,
}

/// The largest capacity a bounded queue can be made with.
pub open spec fn max_queue_capacity() -> int {
    (usize::MAX / 8) as int
}

/// The sending half of a bounded queue, together with the capacity that the
/// queue was made with. The capacity is fixed when the queue is made and
/// never changes.
#[verifier::reject_recursive_types(T)]
pub struct BoundedSender<T> {
    tx: tokio::sync::mpsc::Sender<T>,
    capacity: usize,
}

impl<T> BoundedSender<T> {
    /// The capacity that the queue was made with.
    pub closed spec fn spec_capacity(&self) -> usize {
        self.capacity
    }

    /// The capacity that the queue was made with.
    #[verifier::when_used_as_spec(spec_capacity)]
    pub fn capacity(&self) -> (capacity: usize)
        ensures
            capacity == self.spec_capacity(),
    {
        self.capacity
    }

    /// Queues the message without waiting. Whether there is room is not
    /// known beforehand; a message that was not queued comes back unchanged.
    pub fn try_send(&self, message: T) -> (outcome: TrySend<T>)
        ensures
            outcome matches TrySend::Full(m) ==> m == message,
            outcome matches TrySend::Closed(m) ==> m == message,
    {
        mpsc_try_send(&self.tx, message)
    }

    /// The sending half itself, for a sender that waits for room.
    pub fn sender(&self) -> &tokio::sync::mpsc::Sender<T> {
        &self.tx
    }
}

/// `tokio::sync::mpsc::channel`: a bounded queue with one receiver. The call
/// panics on a capacity of zero or above `usize::MAX >> 3`, which `requires`
/// leaves out. Nothing is claimed of the two halves.
#[verifier::external_body]
fn mpsc_channel<T>(buffer: usize) -> (halves: (tokio::sync::mpsc::Sender<T>, tokio::sync::mpsc::Receiver<T>))
    requires
        0 < buffer <= max_queue_capacity(),
{
    tokio::sync::mpsc::channel(buffer)
}

/// A bounded queue of the given capacity with one receiver. The sending
/// half keeps the capacity that the queue was made with.
pub fn bounded_channel<T>(buffer: usize) -> (halves: (BoundedSender<T>, tokio::sync::mpsc::Receiver<T>))
    requires
        0 < buffer <= max_queue_capacity(),
    ensures
        halves.0.capacity() == buffer,
{
    let (tx, rx) = mpsc_channel::<T>(buffer);
    (BoundedSender { tx, capacity: buffer }, rx)
}

/// `tokio::sync::mpsc::Sender::try_send`: queues the message without waiting.
/// Whether there was room depends on the other threads; the contract claims
/// only that a message which was not queued is handed back unchanged.
#[verifier::external_body]
fn mpsc_try_send<T>(tx: &tokio::sync::mpsc::Sender<T>, message: T) -> (outcome: TrySend<T>)
    ensures
        outcome matches TrySend::Full(m) ==> m == message,
        outcome matches TrySend::Closed(m) ==> m == message,
{
    match tx.try_send(message) {
        Ok(()) => TrySend::Sent,
        Err(tokio::sync::mpsc::error::TrySendError::Full(m)) => TrySend::Full(m),
        Err(tokio::sync::mpsc::error::TrySendError::Closed(m)) => TrySend::Closed(m),
    }
}

/// `tokio::sync::mpsc::Receiver::try_recv`: takes the oldest queued message
/// without waiting. Nothing is claimed of what comes back.
#[verifier::external_body]
pub(crate) fn mpsc_try_recv<T>(rx: &mut tokio::sync::mpsc::Receiver<T>) -> (outcome: TryRecv<T>)
{
    match rx.try_recv() {
        Ok(m) => TryRecv::Received(m),
        Err(tokio::sync::mpsc::error::TryRecvError::Empty) => TryRecv::Empty,
        Err(tokio::sync::mpsc::error::TryRecvError::Disconnected) => TryRecv::Disconnected,
    }
}

/// `tokio::sync::oneshot::channel`: a channel for a single value. Nothing is
/// claimed of the two halves.
#[verifier::external_body]
pub(crate) fn oneshot_channel<T>() -> (halves: (
    tokio::sync::oneshot::Sender<T>,
    tokio::sync::oneshot::Receiver<T>,
))
{
    tokio::sync::oneshot::channel()
}

/// `tokio::sync::oneshot::Sender::send`: hands the value to the receiving
/// half, never waiting. Where the receiver is gone the value comes back
/// unchanged, which is all the contract claims.
#[verifier::external_body]
pub(crate) fn oneshot_send<T>(tx: tokio::sync::oneshot::Sender<T>, value: T) -> (outcome: Result<(), T>)
    ensures
        outcome matches Err(v) ==> v == value,
{
    tx.send(value)
}

/// `tokio::sync::oneshot::Receiver::try_recv`: takes the value if it was
/// sent. `Disconnected` stands for tokio's `Closed`: the sender is gone or
/// the value was taken before. Nothing is claimed of what comes back.
#[verifier::external_body]
pub(crate) fn oneshot_try_recv<T>(rx: &mut tokio::sync::oneshot::Receiver<T>) -> (outcome: TryRecv<T>)
{
    match rx.try_recv() {
        Ok(v) => TryRecv::Received(v),
        Err(tokio::sync::oneshot::error::TryRecvError::Empty) => TryRecv::Empty,
        Err(tokio::sync::oneshot::error::TryRecvError::Closed) => TryRecv::Disconnected,
    }
}

/// What a worker thread is known to the engine by.
pub struct PjsuaThreadMeta {
    thread_name: String,
}

/// The name of the worker thread with the given number.
pub open spec fn thread_name_of(counter: nat) -> Seq<char> {
    "pjsua_thread_tokio_"@ + decimal(counter)
}

impl PjsuaThreadMeta {
    /// The name of the thread.
    pub closed spec fn spec_thread_name(&self) -> Seq<char> {
        self.thread_name@
    }

    /// The name of the thread.
    pub fn thread_name(&self) -> (name: &String)
        ensures
            name@ == self.spec_thread_name(),
    {
        &self.thread_name
    }

    /// Prepares a worker thread for work on the engine's behalf: its name,
    /// by its number among the workers, and what to ask of the engine. A
    /// thread that the engine knows already is not registered again.
    pub fn register(counter: usize, is_registered: bool) -> (made: (PjsuaThreadMeta, Option<EngineRequest>))
        ensures
            made.0.spec_thread_name() == thread_name_of(counter as nat),
            made.1 == (if is_registered {
                None
            } else {
                Some(EngineRequest::ThreadRegister)
            }),
    {
        let mut thread_name = String::from_str("pjsua_thread_tokio_");
        push_decimal(&mut thread_name, counter as u64);
        let request = if is_registered {
            None
        } else {
            Some(EngineRequest::ThreadRegister)
        };
        (PjsuaThreadMeta { thread_name }, request)
    }
}

} // verus!
