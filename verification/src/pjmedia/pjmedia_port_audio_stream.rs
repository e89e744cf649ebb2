//! A port that feeds audio from the application into the mixing graph.

use vstd::prelude::*;
use vstd::string::StringExecFns;
use crate::decimal::push_decimal;
use crate::engine::EngineRequest;
use crate::error::{PjsuaError, LOCAL_ERROR};
use crate::pjmedia::pjmedia_api::{
    format_detail, format_is_valid, port_format, port_name, port_teardown, samples_as_bytes,
    samples_to_le, AudioFormatDetail, Frame, FrameType, FrameView, SendError, BITS_PER_SAMPLE,
};
use crate::pjsua_softphone_api::PjsuaInstanceStarted;
use crate::tokio_utils::{bounded_channel, mpsc_try_recv, BoundedSender, TryRecv, TrySend};

verus! {

/// How many frames of the application wait for the engine.
pub const STREAM_QUEUE_DEPTH: usize = 512;

/// What the callbacks of a stream port work with: the receiving half of the
/// frame queue, and the format of the port.
pub struct MediaPortData {
    frames_rx: tokio::sync::mpsc::Receiver<Frame>,
    sample_rate: u32,
    channels_count: usize,
}

/// What to do with the buffer that the engine asked to have filled.
#[derive(Debug)]
pub enum FrameFill {
    /// The engine did not ask for audio: leave its frame as it is.
    Untouched,
    /// Copy `bytes`, which fill the buffer exactly, and set the timestamp.
    Audio { bytes: Vec<u8>, timestamp: u64 },
    /// Nothing is queued: zero the buffer, set timestamp and size to zero
    /// and the frame's type to none. Silence is made further down.
    NoFrame,
    /// The queued frame does not fill the buffer exactly. The sender sizes
    /// every frame, so this does not happen: the caller treats it as fatal.
    SizeMismatch { samples: usize, capacity: usize },
}

impl MediaPortData {
    /// The sample rate of the port.
    pub closed spec fn spec_sample_rate(&self) -> u32 {
        self.sample_rate
    }

    /// The number of channels of the port.
    pub closed spec fn spec_channels_count(&self) -> usize {
        self.channels_count
    }

    /// The sample rate of the port.
    #[verifier::when_used_as_spec(spec_sample_rate)]
    pub fn sample_rate(&self) -> (rate: u32)
        ensures
            rate == self.spec_sample_rate(),
    {
        self.sample_rate
    }

    /// The number of channels of the port.
    #[verifier::when_used_as_spec(spec_channels_count)]
    pub fn channels_count(&self) -> (count: usize)
        ensures
            count == self.spec_channels_count(),
    {
        self.channels_count
    }

    /// What goes into a buffer of `capacity` bytes, given how the receive
    /// from the queue ended. A received frame must fill the buffer exactly,
    /// two bytes a sample, the low byte first; its time becomes the
    /// timestamp. Where nothing was received the engine gets no frame.
    pub fn fill_frame(received: TryRecv<Frame>, capacity: usize) -> (fill: FrameFill)
        ensures
            match received {
                TryRecv::Received(frame) => if 2 * frame@.samples.len() == capacity {
                    fill matches FrameFill::Audio { bytes, timestamp } && bytes@ == samples_to_le(frame@.samples)
                        && bytes@.len() == capacity && timestamp == frame@.time
                } else {
                    fill matches FrameFill::SizeMismatch { samples, capacity: wanted } && samples
                        == frame@.samples.len() && wanted == capacity
                },
                _ => fill is NoFrame,
            },
    {
        match received {
            TryRecv::Received(frame) => {
                let samples: usize = frame.data.len();
                if samples <= capacity / 2 && capacity % 2 == 0 && samples == capacity / 2 {
                    let bytes = samples_as_bytes(&frame.data);
                    FrameFill::Audio { bytes, timestamp: frame.time }
                } else {
                    FrameFill::SizeMismatch { samples, capacity }
                }
            },
            TryRecv::Empty => FrameFill::NoFrame,
            TryRecv::Disconnected => FrameFill::NoFrame,
        }
    }

    /// Answers the engine's request for a frame into a buffer of `capacity`
    /// bytes. Where the engine asks for audio, the oldest queued frame is
    /// taken without waiting and handed to [`MediaPortData::fill_frame`].
    /// What is queued is not known beforehand: the result is that of
    /// `fill_frame` for whatever the queue gave.
    pub fn get_frame(&mut self, frame_type: FrameType, capacity: usize) -> (fill: FrameFill)
        ensures
            frame_type != FrameType::Audio <==> fill is Untouched,
            fill matches FrameFill::Audio { bytes, timestamp } ==> bytes@.len() == capacity,
            fill matches FrameFill::SizeMismatch { samples, capacity: wanted } ==> wanted == capacity && 2
                * samples != capacity,
            final(self).spec_sample_rate() == old(self).spec_sample_rate(),
            final(self).spec_channels_count() == old(self).spec_channels_count(),
    {
        match frame_type {
            FrameType::Audio => {
                let received = mpsc_try_recv(&mut self.frames_rx);
                Self::fill_frame(received, capacity)
            },
            _ => FrameFill::Untouched,
        }
    }
}

/// The samples of a frame brought to `samples_per_frame` with zeros at the
/// end; the frame must not be longer.
pub open spec fn padded(samples: Seq<i16>, samples_per_frame: nat) -> Seq<i16> {
    samples + Seq::new((samples_per_frame - samples.len()) as nat, |i: int| 0i16)
}

/// The sending half of a stream port's frame queue, which sizes each frame.
pub struct CustomStreamMediaPortTx {
    pub frames_tx: BoundedSender<Frame>,
    bits_per_sample: usize,
    samples_per_frame: usize,
}

impl CustomStreamMediaPortTx {
    /// The width of a sample.
    pub closed spec fn spec_bits_per_sample(&self) -> usize {
        self.bits_per_sample
    }

    /// The number of samples that every queued frame has.
    pub closed spec fn spec_samples_per_frame(&self) -> usize {
        self.samples_per_frame
    }

    /// How many frames the queue holds.
    pub closed spec fn spec_queue_depth(&self) -> usize {
        self.frames_tx.capacity()
    }

    /// How many frames the queue holds.
    #[verifier::when_used_as_spec(spec_queue_depth)]
    pub fn queue_depth(&self) -> (depth: usize)
        ensures
            depth == self.spec_queue_depth(),
    {
        self.frames_tx.capacity()
    }

    /// The width of a sample.
    #[verifier::when_used_as_spec(spec_bits_per_sample)]
    pub fn bits_per_sample(&self) -> (bits: usize)
        ensures
            bits == self.spec_bits_per_sample(),
    {
        self.bits_per_sample
    }

    /// The number of samples that every queued frame has.
    #[verifier::when_used_as_spec(spec_samples_per_frame)]
    pub fn samples_per_frame(&self) -> (samples: usize)
        ensures
            samples == self.spec_samples_per_frame(),
    {
        self.samples_per_frame
    }

    /// Sizes a frame for the queue. A frame with more samples than a frame
    /// of the port is refused and comes back as it was. A shorter one is
    /// filled up with zeros at the end; its time stays.
    pub fn fit(&self, frame: Frame) -> (result: Result<Frame, SendError>)
        ensures
            frame@.samples.len() > self.samples_per_frame() ==> (result matches Err(
                SendError::InvalidSizeFrameError(returned),
            ) && returned == frame),
            frame@.samples.len() <= self.samples_per_frame() ==> (result matches Ok(sized) && sized@ == (
            FrameView { samples: padded(frame@.samples, self.samples_per_frame() as nat), time: frame@.time })),
    {
        if frame.data.len() > self.samples_per_frame {
            return Err(SendError::InvalidSizeFrameError(frame));
        }
        let time = frame.time;
        let mut data = frame.data;
        let ghost before = data@;
        while data.len() < self.samples_per_frame
            invariant
                before.len() <= data@.len() <= self.samples_per_frame,
                data@ == before + Seq::new((data@.len() - before.len()) as nat, |i: int| 0i16),
            decreases self.samples_per_frame - data.len(),
        {
            data.push(0);
            assert(data@ =~= before + Seq::new((data@.len() - before.len()) as nat, |i: int| 0i16));
        }
        Ok(Frame { data, time })
    }

    /// What the sender is told, given how the attempt to queue a sized frame
    /// ended.
    pub fn sent_or_refused(sent: TrySend<Frame>) -> (result: Result<(), SendError>)
        ensures
            sent is Sent <==> result is Ok,
            result matches Err(e) ==> e is SendErr,
    {
        match sent {
            TrySend::Sent => Ok(()),
            TrySend::Full(_) => Err(SendError::SendErr),
            TrySend::Closed(_) => Err(SendError::SendErr),
        }
    }

    /// Sizes a frame by [`CustomStreamMediaPortTx::fit`] and queues it
    /// without waiting. A frame that is too long comes back in the error. A
    /// frame that the queue does not take is lost, with `SendErr`; whether
    /// the queue takes it is not known beforehand.
    pub fn send(&self, frame: Frame) -> (result: Result<(), SendError>)
        ensures
            frame@.samples.len() > self.samples_per_frame() <==> result matches Err(
                SendError::InvalidSizeFrameError(_),
            ),
            result matches Err(SendError::InvalidSizeFrameError(returned)) ==> returned == frame,
    {
        match self.fit(frame) {
            Err(e) => Err(e),
            Ok(sized) => {
                let sent = self.frames_tx.try_send(sized);
                Self::sent_or_refused(sent)
            },
        }
    }
}

/// A stream port that is not in the mixing graph yet.
pub struct CustomStreamMediaPort {
    name: String,
    format: AudioFormatDetail,
    port_data: Option<MediaPortData>,
}

impl CustomStreamMediaPort {
    /// The name under which the engine knows the port.
    pub closed spec fn spec_name(&self) -> Seq<char> {
        self.name@
    }

    /// The format of the port.
    pub closed spec fn spec_format(&self) -> AudioFormatDetail {
        self.format
    }

    /// Whether the callback data is still here.
    pub closed spec fn has_port_data(&self) -> bool {
        self.port_data is Some
    }

    /// The callback data, while it is here.
    pub closed spec fn spec_port_data(&self) -> MediaPortData {
        self.port_data->0
    }

    /// A stream port for the given format, and the sending half of its queue
    /// of [`STREAM_QUEUE_DEPTH`] frames. `port_number` tells the port from
    /// the others of the process and ends its name. A format whose frames
    /// last less than a millisecond, or that the mixing graph cannot hold,
    /// is refused.
    pub fn new(sample_rate: u32, channels_count: usize, samples_per_frame: usize, port_number: u32) -> (result:
        Result<(CustomStreamMediaPort, CustomStreamMediaPortTx), PjsuaError>)
        ensures
            result is Ok <==> format_is_valid(sample_rate as nat, channels_count as nat, samples_per_frame as nat),
            result matches Ok((port, tx)) ==> {
                &&& port.spec_name() == port_name("CustomStreamMediaPort_"@, port_number as nat)
                &&& port.spec_format() == format_detail(
                    sample_rate as nat,
                    channels_count as nat,
                    samples_per_frame as nat,
                )
                &&& port.has_port_data()
                &&& port.spec_port_data().sample_rate() == sample_rate
                &&& port.spec_port_data().channels_count() == channels_count
                &&& tx.samples_per_frame() == samples_per_frame
                &&& tx.bits_per_sample() == BITS_PER_SAMPLE
                &&& tx.queue_depth() == STREAM_QUEUE_DEPTH
            },
            result matches Err(e) ==> e.code == LOCAL_ERROR,
    {
        let mut name = String::from_str("CustomStreamMediaPort_");
        push_decimal(&mut name, port_number as u64);
        let format = match port_format(sample_rate, channels_count, samples_per_frame) {
            Ok(format) => format,
            Err(e) => {
                return Err(e);
            },
        };
        let (frames_tx, frames_rx) = bounded_channel::<Frame>(STREAM_QUEUE_DEPTH);
        let port_data = MediaPortData { frames_rx, sample_rate, channels_count };
        Ok(
            (
                CustomStreamMediaPort { name, format, port_data: Some(port_data) },
                CustomStreamMediaPortTx { frames_tx, samples_per_frame, bits_per_sample: BITS_PER_SAMPLE },
            ),
        )
    }

    /// The name under which the engine knows the port.
    pub fn name(&self) -> (name: &String)
        ensures
            name@ == self.spec_name(),
    {
        &self.name
    }

    /// The format of the port.
    pub fn format(&self) -> (format: AudioFormatDetail)
        ensures
            format == self.spec_format(),
    {
        self.format
    }

    /// Hands out what the callbacks work with: once, then `None`.
    pub fn take_port_data(&mut self) -> (port_data: Option<MediaPortData>)
        ensures
            port_data is Some <==> old(self).has_port_data(),
            port_data matches Some(data) ==> data == old(self).spec_port_data(),
            !final(self).has_port_data(),
            final(self).spec_name() == old(self).spec_name(),
            final(self).spec_format() == old(self).spec_format(),
    {
        self.port_data.take()
    }

    /// What to ask of the engine to put the port into the mixing graph.
    pub fn add_request(&self) -> (request: EngineRequest)
        ensures
            request == EngineRequest::ConfAddPort,
    {
        EngineRequest::ConfAddPort
    }

    /// The port in the mixing graph, given the engine's answer to
    /// [`CustomStreamMediaPort::add_request`]: the slot, or the engine's
    /// error, which is passed on unchanged.
    pub fn add<'a>(self, instance_started: &'a PjsuaInstanceStarted, added: Result<i32, PjsuaError>) -> (result:
        Result<CustomStreamMediaPortAdded<'a>, PjsuaError>)
        ensures
            match added {
                Ok(slot) => result matches Ok(port) && port.spec_port_slot() == slot && !port.is_released(),
                Err(e) => result == Err::<CustomStreamMediaPortAdded<'a>, PjsuaError>(e),
            },
    {
        CustomStreamMediaPortAdded::new(self, instance_started, added)
    }
}

/// A stream port in the mixing graph of a started instance, which it
/// cannot outlive.
pub struct CustomStreamMediaPortAdded<'a> {
    port_slot: i32,
    released: bool,
    _pjsua_instance: &'a PjsuaInstanceStarted,
}

impl<'a> CustomStreamMediaPortAdded<'a> {
    /// The slot of the port in the mixing graph.
    pub closed spec fn spec_port_slot(&self) -> i32 {
        self.port_slot
    }

    /// Whether the port was taken out of the mixing graph.
    pub closed spec fn is_released(&self) -> bool {
        self.released
    }

    /// See [`CustomStreamMediaPort::add`].
    pub fn new(
        media_port: CustomStreamMediaPort,
        pjsua_instance: &'a PjsuaInstanceStarted,
        added: Result<i32, PjsuaError>,
    ) -> (result: Result<CustomStreamMediaPortAdded<'a>, PjsuaError>)
        ensures
            match added {
                Ok(slot) => result matches Ok(port) && port.spec_port_slot() == slot && !port.is_released(),
                Err(e) => result == Err::<CustomStreamMediaPortAdded<'a>, PjsuaError>(e),
            },
    {
        match added {
            Ok(port_slot) => Ok(CustomStreamMediaPortAdded { port_slot, released: false, _pjsua_instance: pjsua_instance }),
            Err(e) => Err(e),
        }
    }

    /// The slot of the port in the mixing graph.
    #[verifier::when_used_as_spec(spec_port_slot)]
    pub fn port_slot(&self) -> (slot: i32)
        ensures
            slot == self.spec_port_slot(),
    {
        self.port_slot
    }

    /// What to ask of the engine when the port goes away: the first time
    /// [`port_teardown`] of its slot, after that nothing.
    pub fn release(&mut self) -> (requests: Vec<EngineRequest>)
        ensures
            requests@ == (if old(self).is_released() {
                Seq::<EngineRequest>::empty()
            } else {
                port_teardown(old(self).spec_port_slot())
            }),
            final(self).is_released(),
            final(self).spec_port_slot() == old(self).spec_port_slot(),
    {
        let mut requests: Vec<EngineRequest> = Vec::new();
        if !self.released {
            self.released = true;
            requests.push(EngineRequest::ConfRemovePort { slot: self.port_slot });
            requests.push(EngineRequest::PortDestroy { slot: self.port_slot });
            assert(requests@ =~= port_teardown(self.port_slot));
        }
        requests
    }
}

/// Every frame that the sender sizes fills the engine's buffer exactly: a
/// frame of at most `samples_per_frame` samples is queued with exactly that
/// many, its own samples first and zeros after them, and takes two bytes a
/// sample in a buffer.
pub proof fn law_sized_frame_fills_buffer(samples: Seq<i16>, samples_per_frame: nat)
    requires
        samples.len() <= samples_per_frame,
    ensures
        padded(samples, samples_per_frame).len() == samples_per_frame,
        samples_to_le(padded(samples, samples_per_frame)).len() == 2 * samples_per_frame,
        padded(samples, samples_per_frame).subrange(0, samples.len() as int) == samples,
        forall|i: int| samples.len() <= i < samples_per_frame ==> padded(samples, samples_per_frame)[i] == 0,
        samples.len() == samples_per_frame ==> padded(samples, samples_per_frame) == samples,
{
    assert(padded(samples, samples_per_frame).subrange(0, samples.len() as int) =~= samples);
    if samples.len() == samples_per_frame {
        assert(padded(samples, samples_per_frame) =~= samples);
    }
}

} // verus!
