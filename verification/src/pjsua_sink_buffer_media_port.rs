//! A sink port that captures audio into one buffer and hands the full
//! buffer on.

use vstd::prelude::*;
use crate::engine::EngineRequest;
use crate::error::{PjsuaError, LOCAL_ERROR};
use crate::pjmedia::pjmedia_api::port_teardown;
use crate::pjsua_call::{get_call_conf_port, INVALID_ID};

verus! {

/// The recycling policy that the queue's halves have by default; they are
/// taken only with it declared.
#[verifier::external_type_specification]
#[verifier::external_body]
pub struct ExDefaultRecycle(thingbuf::recycling::DefaultRecycle);

#[verifier::external_type_specification]
#[verifier::external_body]
#[verifier::reject_recursive_types(T)]
#[verifier::reject_recursive_types(R)]
pub struct ExCaptureSender<T, R>(thingbuf::mpsc::Sender<T, R>);

#[verifier::external_type_specification]
#[verifier::external_body]
#[verifier::reject_recursive_types(T)]
#[verifier::reject_recursive_types(R)]
pub struct ExCaptureReceiver<T, R>(thingbuf::mpsc::Receiver<T, R>);

/// How many captured buffers wait for the application.
pub const CAPTURE_QUEUE_DEPTH: usize = 100;

/// The sending half of the queue of captured buffers, together with the
/// capacity that the queue was made with.
#[verifier::reject_recursive_types(T)]
pub struct CaptureSender<T> {
    tx: thingbuf::mpsc::Sender<T>,
    capacity: usize,
}

impl<T: Default + Clone> CaptureSender<T> {
    /// The capacity that the queue was made with.
    pub closed spec fn spec_capacity(&self) -> usize {
        self.capacity
    }

    /// The capacity that the queue was made with.
    #[verifier::when_used_as_spec(spec_capacity)]
    pub fn capacity(&self) -> (capacity: usize)
        ensures
            capacity == self.spec_capacity(),
    {
        self.capacity
    }

    /// A bounded queue of the given capacity with one receiver. The sending
    /// half keeps the capacity that the queue was made with.
    pub fn channel(capacity: usize) -> (halves: (CaptureSender<T>, thingbuf::mpsc::Receiver<T>))
        requires
            0 < capacity <= usize::MAX / 2,
        ensures
            halves.0.capacity() == capacity,
    {
        let (tx, rx) = capture_channel::<T>(capacity);
        (CaptureSender { tx, capacity }, rx)
    }

    /// Queues the value without waiting. Whether there is room is not known
    /// beforehand; a value that was not queued comes back unchanged.
    pub fn try_send(&self, value: T) -> (outcome: Result<(), T>)
        ensures
            outcome matches Err(v) ==> v == value,
    {
        capture_try_send(&self.tx, value)
    }
}

/// `thingbuf::mpsc::channel`: a bounded queue with one receiver. The call
/// panics on a capacity of zero or above half of `usize::MAX`, which
/// `requires` leaves out. Nothing is claimed of the two halves.
#[verifier::external_body]
fn capture_channel<T: Default + Clone>(capacity: usize) -> (halves: (
    thingbuf::mpsc::Sender<T>,
    thingbuf::mpsc::Receiver<T>,
))
    requires
        0 < capacity <= usize::MAX / 2,
{
    thingbuf::mpsc::channel(capacity)
}

/// `thingbuf::mpsc::Sender::try_send`: queues the value without waiting.
/// Whether there was room depends on the other threads; the contract claims
/// only that a value which was not queued is handed back unchanged.
#[verifier::external_body]
fn capture_try_send<T: Default + Clone>(tx: &thingbuf::mpsc::Sender<T>, value: T) -> (outcome: Result<(), T>)
    ensures
        outcome matches Err(v) ==> v == value,
{
    match tx.try_send(value) {
        Ok(()) => Ok(()),
        Err(e) => Err(e.into_inner()),
    }
}

/// A buffer of the given size, filled with zeros.
pub fn static_size_buffer(buffer_size: usize) -> (buffer: Vec<u8>)
    ensures
        buffer@ == Seq::new(buffer_size as nat, |i: int| 0u8),
{
    let mut buffer: Vec<u8> = Vec::new();
    while buffer.len() < buffer_size
        invariant
            buffer@.len() <= buffer_size,
            buffer@ == Seq::new(buffer@.len(), |i: int| 0u8),
        decreases buffer_size - buffer.len(),
    {
        buffer.push(0);
        assert(buffer@ =~= Seq::new(buffer@.len(), |i: int| 0u8));
    }
    buffer
}

/// The size of the capture buffer where none is asked for: an eighth of the
/// product of sample rate, samples per frame and channels.
pub open spec fn default_buffer_size(sample_rate: nat, channels_count: nat, samples_per_frame: nat) -> nat {
    sample_rate * samples_per_frame * channels_count / 8
}

/// The message of the error for a capture buffer beyond what memory holds.
pub open spec fn buffer_too_large_message() -> Seq<char> {
    "capture buffer size does not fit the address space"@
}

/// The size of the capture buffer: the size that is asked for, or
/// [`default_buffer_size`]. A default size beyond `usize` is refused.
pub fn capture_buffer_size(
    buffer_size: Option<usize>,
    sample_rate: usize,
    channels_count: usize,
    samples_per_frame: usize,
) -> (result: Result<usize, PjsuaError>)
    ensures
        match buffer_size {
            Some(size) => result == Ok::<usize, PjsuaError>(size),
            None => {
                let size = default_buffer_size(
                    sample_rate as nat,
                    channels_count as nat,
                    samples_per_frame as nat,
                );
                if size <= usize::MAX {
                    result == Ok::<usize, PjsuaError>(size as usize)
                } else {
                    result matches Err(e) && e.code == LOCAL_ERROR && e.message@ == buffer_too_large_message()
                }
            },
        },
{
    match buffer_size {
        Some(size) => Ok(size),
        None => {
            assert(sample_rate * samples_per_frame <= usize::MAX * usize::MAX) by (nonlinear_arith)
                requires
                    sample_rate <= usize::MAX,
                    samples_per_frame <= usize::MAX,
            ;
            let frames: u128 = sample_rate as u128 * samples_per_frame as u128;
            match frames.checked_mul(channels_count as u128) {
                None => Err(PjsuaError::local("capture buffer size does not fit the address space")),
                Some(product) => {
                    let size: u128 = product / 8;
                    if size > usize::MAX as u128 {
                        Err(PjsuaError::local("capture buffer size does not fit the address space"))
                    } else {
                        Ok(size as usize)
                    }
                },
            }
        },
    }
}

/// What the engine's callback for a full capture buffer works with: the
/// buffer, and the sending half of the queue of captured buffers.
pub struct EofCb2UserData {
    buffer: Vec<u8>,
    tx_channel: CaptureSender<Vec<u8>>,
}

impl EofCb2UserData {
    /// What the capture buffer holds.
    pub closed spec fn spec_buffer(&self) -> Seq<u8> {
        self.buffer@
    }

    /// How many captured buffers the queue holds.
    pub closed spec fn spec_queue_depth(&self) -> usize {
        self.tx_channel.capacity()
    }

    /// How many captured buffers the queue holds.
    #[verifier::when_used_as_spec(spec_queue_depth)]
    pub fn queue_depth(&self) -> (depth: usize)
        ensures
            depth == self.spec_queue_depth(),
    {
        self.tx_channel.capacity()
    }

    /// The capture buffer, which the engine writes into.
    pub fn buffer_mut(&mut self) -> (buffer: &mut Vec<u8>)
        ensures
            buffer@ == old(self).spec_buffer(),
            final(self).spec_buffer() == final(buffer)@,
            final(self).spec_queue_depth() == old(self).spec_queue_depth(),
    {
        &mut self.buffer
    }

    /// A copy of what the capture buffer holds.
    pub fn copy(&self) -> (copy: Vec<u8>)
        ensures
            copy@ == self.spec_buffer(),
    {
        let mut copy: Vec<u8> = Vec::new();
        let mut i: usize = 0;
        while i < self.buffer.len()
            invariant
                i <= self.buffer@.len(),
                copy@ == self.buffer@.subrange(0, i as int),
            decreases self.buffer.len() - i,
        {
            copy.push(self.buffer[i]);
            i = i + 1;
            assert(copy@ =~= self.buffer@.subrange(0, i as int));
        }
        assert(self.buffer@.subrange(0, i as int) =~= self.buffer@);
        copy
    }
}

/// What became of a full capture buffer.
#[derive(Debug, Clone, Copy, PartialEq, Eq, Structural)]
pub enum Captured {
    /// A copy of the buffer is in the queue.
    Queued,
    /// The queue did not take the copy; it is lost.
    Dropped,
}

/// What the engine's callback for a full capture buffer does: it queues
/// the copy of the buffer that [`EofCb2UserData::copy`] makes for the
/// application, without waiting. The buffer stays as it is. A missing block is a broken invariant: `None`, which the
/// caller treats as fatal. Whether the queue takes the copy is not known
/// beforehand.
pub fn pjmedia_mem_capture_eof_cb(user_data: Option<&EofCb2UserData>) -> (outcome: Option<Captured>)
    ensures
        outcome is Some <==> user_data is Some,
{
    match user_data {
        None => None,
        Some(user_data) => {
            let buffer_out = user_data.copy();
            match user_data.tx_channel.try_send(buffer_out) {
                Ok(()) => Some(Captured::Queued),
                Err(_) => Some(Captured::Dropped),
            }
        },
    }
}

/// A capture port that is not in the mixing graph yet: the format it is
/// created with, and the receiving half of its queue.
pub struct PjsuaSinkBufferMediaPort {
    pub rx_channel: thingbuf::mpsc::Receiver<Vec<u8>>,
    buffer_size: usize,
    sample_rate: usize,
    channels_count: usize,
    samples_per_frame: usize,
}

impl PjsuaSinkBufferMediaPort {
    /// The size of the capture buffer.
    pub closed spec fn spec_buffer_size(&self) -> usize {
        self.buffer_size
    }

    /// A capture port for the given format, and what its callback works
    /// with: a zeroed buffer of [`capture_buffer_size`] and the sending half
    /// of a queue of [`CAPTURE_QUEUE_DEPTH`] buffers.
    pub fn new(buffer_size: Option<usize>, sample_rate: usize, channels_count: usize, samples_per_frame: usize) -> (result:
        Result<(PjsuaSinkBufferMediaPort, EofCb2UserData), PjsuaError>)
        ensures
            match buffer_size {
                Some(size) => result matches Ok((port, block)) && port.spec_buffer_size() == size && block.spec_buffer()
                    == Seq::new(size as nat, |i: int| 0u8) && block.queue_depth() == CAPTURE_QUEUE_DEPTH,
                None => {
                    let size = default_buffer_size(
                        sample_rate as nat,
                        channels_count as nat,
                        samples_per_frame as nat,
                    );
                    if size <= usize::MAX {
                        result matches Ok((port, block)) && port.spec_buffer_size() == size && block.spec_buffer()
                            == Seq::new(size, |i: int| 0u8) && block.queue_depth() == CAPTURE_QUEUE_DEPTH
                    } else {
                        result matches Err(e) && e.code == LOCAL_ERROR && e.message@ == buffer_too_large_message()
                    }
                },
            },
    {
        let size = match capture_buffer_size(buffer_size, sample_rate, channels_count, samples_per_frame) {
            Ok(size) => size,
            Err(e) => {
                return Err(e);
            },
        };
        let buffer = static_size_buffer(size);
        let (tx_channel, rx_channel) = CaptureSender::<Vec<u8>>::channel(CAPTURE_QUEUE_DEPTH);
        Ok(
            (
                PjsuaSinkBufferMediaPort {
                    rx_channel,
                    buffer_size: size,
                    sample_rate,
                    channels_count,
                    samples_per_frame,
                },
                EofCb2UserData { buffer, tx_channel },
            ),
        )
    }

    /// The size of the capture buffer.
    #[verifier::when_used_as_spec(spec_buffer_size)]
    pub fn buffer_size(&self) -> (size: usize)
        ensures
            size == self.spec_buffer_size(),
    {
        self.buffer_size
    }

    /// What to ask of the engine to put the port into the mixing graph.
    pub fn add_request(&self) -> (request: EngineRequest)
        ensures
            request == EngineRequest::ConfAddPort,
    {
        EngineRequest::ConfAddPort
    }
}

/// A capture port in the mixing graph.
pub struct PjsuaSinkBufferMediaPortAdded {
    port_slot: i32,
    media_port: PjsuaSinkBufferMediaPort,
    released: bool,
}

impl PjsuaSinkBufferMediaPortAdded {
    /// The slot of the port in the mixing graph.
    pub closed spec fn spec_port_slot(&self) -> i32 {
        self.port_slot
    }

    /// The port that was put into the mixing graph.
    pub closed spec fn spec_media_port(&self) -> PjsuaSinkBufferMediaPort {
        self.media_port
    }

    /// Whether the port was taken out of the mixing graph.
    pub closed spec fn is_released(&self) -> bool {
        self.released
    }

    /// The port in the mixing graph, given the engine's answer to
    /// [`PjsuaSinkBufferMediaPort::add_request`]: the slot, or the engine's
    /// error, with which the port comes back as it was.
    pub fn new(media_port: PjsuaSinkBufferMediaPort, added: Result<i32, PjsuaError>) -> (result: Result<
        PjsuaSinkBufferMediaPortAdded,
        (PjsuaError, PjsuaSinkBufferMediaPort),
    >)
        ensures
            match added {
                Ok(slot) => result matches Ok(port) && port.spec_port_slot() == slot && port.spec_media_port()
                    == media_port && !port.is_released(),
                Err(e) => result == Err::<PjsuaSinkBufferMediaPortAdded, (PjsuaError, PjsuaSinkBufferMediaPort)>(
                    (e, media_port),
                ),
            },
    {
        match added {
            Ok(port_slot) => Ok(PjsuaSinkBufferMediaPortAdded { port_slot, media_port, released: false }),
            Err(e) => Err((e, media_port)),
        }
    }

    /// The slot of the port in the mixing graph.
    #[verifier::when_used_as_spec(spec_port_slot)]
    pub fn port_slot(&self) -> (slot: i32)
        ensures
            slot == self.spec_port_slot(),
    {
        self.port_slot
    }

    /// The port that was put into the mixing graph.
    pub fn media_port(&self) -> (media_port: &PjsuaSinkBufferMediaPort)
        ensures
            *media_port == self.spec_media_port(),
    {
        &self.media_port
    }

    /// What to ask of the engine to feed a call's audio to the port; see
    /// [`connect_request`].
    pub fn connect(&self, call_conf_slot: i32) -> (result: Result<EngineRequest, PjsuaError>)
        ensures
            call_conf_slot != INVALID_ID ==> result == Ok::<EngineRequest, PjsuaError>(
                EngineRequest::ConfConnect { source: call_conf_slot, sink: self.port_slot() },
            ),
            call_conf_slot == INVALID_ID ==> (result matches Err(e) && e.code == LOCAL_ERROR),
    {
        connect_request(call_conf_slot, self.port_slot)
    }

    /// What to ask of the engine to end the feed; see
    /// [`disconnect_request`].
    pub fn disconnect(&self, call_conf_slot: i32) -> (request: Option<EngineRequest>)
        ensures
            request == (if call_conf_slot == INVALID_ID {
                None
            } else {
                Some(EngineRequest::ConfDisconnect { source: call_conf_slot, sink: self.port_slot() })
            }),
    {
        disconnect_request(call_conf_slot, self.port_slot)
    }

    /// What to ask of the engine when the port goes away: the first time
    /// [`port_teardown`] of its slot, after that nothing.
    pub fn release(&mut self) -> (requests: Vec<EngineRequest>)
        ensures
            requests@ == (if old(self).is_released() {
                Seq::<EngineRequest>::empty()
            } else {
                port_teardown(old(self).spec_port_slot())
            }),
            final(self).is_released(),
            final(self).spec_port_slot() == old(self).spec_port_slot(),
            final(self).spec_media_port() == old(self).spec_media_port(),
    {
        let mut requests: Vec<EngineRequest> = Vec::new();
        if !self.released {
            self.released = true;
            requests.push(EngineRequest::ConfRemovePort { slot: self.port_slot });
            requests.push(EngineRequest::PortDestroy { slot: self.port_slot });
            assert(requests@ =~= port_teardown(self.port_slot));
        }
        requests
    }
}

/// What to ask of the engine to feed a call's audio to a capture port,
/// given the slot that the engine reports for the call; a call without a
/// slot cannot be connected.
pub fn connect_request(call_conf_slot: i32, port_slot: i32) -> (result: Result<EngineRequest, PjsuaError>)
    ensures
        call_conf_slot != INVALID_ID ==> result == Ok::<EngineRequest, PjsuaError>(
            EngineRequest::ConfConnect { source: call_conf_slot, sink: port_slot },
        ),
        call_conf_slot == INVALID_ID ==> (result matches Err(e) && e.code == LOCAL_ERROR),
{
    match get_call_conf_port(call_conf_slot) {
        Ok(source) => Ok(EngineRequest::ConfConnect { source, sink: port_slot }),
        Err(e) => Err(e),
    }
}

/// What to ask of the engine when a connected capture port goes away: the
/// disconnection from the call's slot, if the call still has one.
pub fn disconnect_request(call_conf_slot: i32, port_slot: i32) -> (request: Option<EngineRequest>)
    ensures
        request == (if call_conf_slot == INVALID_ID {
            None
        } else {
            Some(EngineRequest::ConfDisconnect { source: call_conf_slot, sink: port_slot })
        }),
{
    match get_call_conf_port(call_conf_slot) {
        Ok(source) => Some(EngineRequest::ConfDisconnect { source, sink: port_slot }),
        Err(_) => None,
    }
}

} // verus!
