//! A port that takes audio out of the mixing graph and queues it for the
//! application.

use vstd::prelude::*;
use vstd::string::StringExecFns;
use crate::decimal::push_decimal;
use crate::engine::EngineRequest;
use crate::error::{PjsuaError, LOCAL_ERROR};
use crate::pjmedia::pjmedia_api::{
    format_detail, format_is_valid, port_format, port_name, port_teardown, samples_from_le,
    sample_duration_micros, AudioFormatDetail, Frame, FrameType, RawFrame,
};
use crate::pjsua_softphone_api::PjsuaInstanceStarted;
use crate::tokio_utils::{bounded_channel, BoundedSender, TrySend};

verus! {

/// How many frames wait for the application before new ones are dropped.
pub const SINK_QUEUE_DEPTH: usize = 512;

/// What the callbacks of a sink port work with: the sending half of the
/// frame queue, and the format by which frames are timed.
pub struct MediaPortData {
    frames_tx: BoundedSender<Frame>,
    sample_rate: u32,
    channels_count: usize,
}

/// What became of a frame that the engine delivered.
#[derive(Debug, Clone, Copy, PartialEq, Eq, Structural)]
pub enum PutFrame {
    /// There was no frame, no buffer or no byte in it; nothing was done.
    Ignored,
    /// The frame is not audio. A sink port is never given such a frame: the
    /// caller treats this as fatal.
    NotAudio,
    /// The frame is in the queue.
    Queued,
    /// The queue was full or closed, and the frame was dropped.
    Dropped,
}

/// What a delivered frame asks for, before the queue is tried.
pub enum Delivery {
    /// Nothing to do.
    Ignore,
    /// Fatal: the frame is not audio.
    NotAudio,
    /// Queue this frame.
    Queue(Frame),
}

impl MediaPortData {
    #[verifier::type_invariant]
    spec fn well_formed(&self) -> bool {
        self.sample_rate > 0 && self.channels_count > 0
    }

    /// The sample rate of the port.
    pub closed spec fn spec_sample_rate(&self) -> u32 {
        self.sample_rate
    }

    /// The number of channels of the port.
    pub closed spec fn spec_channels_count(&self) -> usize {
        self.channels_count
    }

    /// How many frames the queue of the port holds.
    pub closed spec fn spec_queue_depth(&self) -> usize {
        self.frames_tx.capacity()
    }

    /// How many frames the queue of the port holds.
    #[verifier::when_used_as_spec(spec_queue_depth)]
    pub fn queue_depth(&self) -> (depth: usize)
        ensures
            depth == self.spec_queue_depth(),
    {
        self.frames_tx.capacity()
    }

    /// The sample rate of the port.
    #[verifier::when_used_as_spec(spec_sample_rate)]
    pub fn sample_rate(&self) -> (rate: u32)
        ensures
            rate == self.spec_sample_rate(),
            rate > 0,
    {
        proof {
            use_type_invariant(self);
        }
        self.sample_rate
    }

    /// The number of channels of the port.
    #[verifier::when_used_as_spec(spec_channels_count)]
    pub fn channels_count(&self) -> (count: usize)
        ensures
            count == self.spec_channels_count(),
            count > 0,
    {
        proof {
            use_type_invariant(self);
        }
        self.channels_count
    }

    /// A delivered frame that is passed over: there is no frame, no buffer,
    /// or no byte in the buffer.
    pub open spec fn is_ignored(frame: Option<RawFrame>) -> bool {
        frame matches Some(raw) ==> (raw.buf matches Some(buf) ==> buf@.len() == 0)
    }

    /// What a frame delivered by the engine asks for. A missing frame, a
    /// missing buffer and an empty buffer are ignored. Any other frame must
    /// be audio, and is then copied into a [`Frame`]: its samples read from
    /// the buffer, its time counted in sample durations of this port.
    pub fn delivery(&self, frame: Option<RawFrame>) -> (delivery: Delivery)
        ensures
            delivery is Ignore <==> Self::is_ignored(frame),
            delivery is NotAudio <==> !Self::is_ignored(frame) && frame->0.frame_type != FrameType::Audio,
            delivery matches Delivery::Queue(queued) ==> {
                &&& queued@.samples == samples_from_le(frame->0.buf->0@)
                &&& queued@.time == frame->0.samples_elapsed * sample_duration_micros(
                    self.sample_rate() as nat,
                    self.channels_count() as nat,
                )
            },
    {
        proof {
            use_type_invariant(self);
        }
        match frame {
            None => Delivery::Ignore,
            Some(raw) => match raw.buf {
                None => Delivery::Ignore,
                Some(buf) => {
                    if buf.len() == 0 {
                        Delivery::Ignore
                    } else {
                        match raw.frame_type {
                            FrameType::Audio => Delivery::Queue(
                                Frame::from_raw_frame(
                                    buf.as_slice(),
                                    raw.samples_elapsed,
                                    self.sample_rate,
                                    self.channels_count,
                                ),
                            ),
                            _ => Delivery::NotAudio,
                        }
                    }
                },
            },
        }
    }

    /// What became of a frame, given how the attempt to queue it ended: a
    /// frame that found no room is dropped, never waited for.
    pub fn queued_or_dropped(sent: TrySend<Frame>) -> (outcome: PutFrame)
        ensures
            outcome == (if sent is Sent {
                PutFrame::Queued
            } else {
                PutFrame::Dropped
            }),
    {
        match sent {
            TrySend::Sent => PutFrame::Queued,
            TrySend::Full(_) => PutFrame::Dropped,
            TrySend::Closed(_) => PutFrame::Dropped,
        }
    }

    /// Takes a frame that the engine delivered: decides by
    /// [`MediaPortData::delivery`], and tries to queue the frame without
    /// waiting. Whether there is room is not known beforehand.
    pub fn put_frame(&self, frame: Option<RawFrame>) -> (outcome: PutFrame)
        ensures
            outcome == PutFrame::Ignored <==> Self::is_ignored(frame),
            outcome == PutFrame::NotAudio <==> !Self::is_ignored(frame) && frame->0.frame_type
                != FrameType::Audio,
    {
        match self.delivery(frame) {
            Delivery::Ignore => PutFrame::Ignored,
            Delivery::NotAudio => PutFrame::NotAudio,
            Delivery::Queue(queued) => {
                let sent = self.frames_tx.try_send(queued);
                Self::queued_or_dropped(sent)
            },
        }
    }
}

/// A sink port that is not in the mixing graph yet: its name, its format, and
/// what its callbacks will work with.
pub struct CustomSinkMediaPort {
    name: String,
    format: AudioFormatDetail,
    port_data: Option<MediaPortData>,
}

/// The receiving half of a sink port's frame queue.
pub struct CustomSinkMediaPortRx {
    pub frames_rx: tokio::sync::mpsc::Receiver<Frame>,
}

impl CustomSinkMediaPort {
    /// The name under which the engine knows the port.
    pub closed spec fn spec_name(&self) -> Seq<char> {
        self.name@
    }

    /// The format of the port.
    pub closed spec fn spec_format(&self) -> AudioFormatDetail {
        self.format
    }

    /// Whether the callback data is still here.
    pub closed spec fn has_port_data(&self) -> bool {
        self.port_data is Some
    }

    /// The callback data, while it is here.
    pub closed spec fn spec_port_data(&self) -> MediaPortData {
        self.port_data->0
    }

    /// A sink port for the given format, and the receiving half of its
    /// queue of [`SINK_QUEUE_DEPTH`] frames. `port_number` tells the port
    /// from the others of the process and ends its name. A format whose
    /// frames last less than a millisecond, or that the mixing graph cannot
    /// hold, is refused.
    pub fn new(sample_rate: u32, channels_count: usize, samples_per_frame: usize, port_number: u32) -> (result:
        Result<(CustomSinkMediaPort, CustomSinkMediaPortRx), PjsuaError>)
        ensures
            result is Ok <==> format_is_valid(sample_rate as nat, channels_count as nat, samples_per_frame as nat),
            result matches Ok((port, _)) ==> {
                &&& port.spec_name() == port_name("CustomSinkMediaPort_"@, port_number as nat)
                &&& port.spec_format() == format_detail(
                    sample_rate as nat,
                    channels_count as nat,
                    samples_per_frame as nat,
                )
                &&& port.has_port_data()
                &&& port.spec_port_data().sample_rate() == sample_rate
                &&& port.spec_port_data().channels_count() == channels_count
                &&& port.spec_port_data().queue_depth() == SINK_QUEUE_DEPTH
            },
            result matches Err(e) ==> e.code == LOCAL_ERROR,
    {
        let mut name = String::from_str("CustomSinkMediaPort_");
        push_decimal(&mut name, port_number as u64);
        let format = match port_format(sample_rate, channels_count, samples_per_frame) {
            Ok(format) => format,
            Err(e) => {
                return Err(e);
            },
        };
        let (frames_tx, frames_rx) = bounded_channel::<Frame>(SINK_QUEUE_DEPTH);
        let port_data = MediaPortData { frames_tx, sample_rate, channels_count };
        Ok(
            (
                CustomSinkMediaPort { name, format, port_data: Some(port_data) },
                CustomSinkMediaPortRx { frames_rx },
            ),
        )
    }

    /// The name under which the engine knows the port.
    pub fn name(&self) -> (name: &String)
        ensures
            name@ == self.spec_name(),
    {
        &self.name
    }

    /// The format of the port.
    pub fn format(&self) -> (format: AudioFormatDetail)
        ensures
            format == self.spec_format(),
    {
        self.format
    }

    /// Hands out what the callbacks work with: once, then `None`.
    pub fn take_port_data(&mut self) -> (port_data: Option<MediaPortData>)
        ensures
            port_data is Some <==> old(self).has_port_data(),
            port_data matches Some(data) ==> data == old(self).spec_port_data(),
            !final(self).has_port_data(),
            final(self).spec_name() == old(self).spec_name(),
            final(self).spec_format() == old(self).spec_format(),
    {
        self.port_data.take()
    }

    /// What to ask of the engine to put the port into the mixing graph.
    pub fn add_request(&self) -> (request: EngineRequest)
        ensures
            request == EngineRequest::ConfAddPort,
    {
        EngineRequest::ConfAddPort
    }

    /// The port in the mixing graph, given the engine's answer to
    /// [`CustomSinkMediaPort::add_request`]: the slot, or the engine's error,
    /// which is passed on unchanged.
    pub fn add<'a>(self, instance_started: &'a PjsuaInstanceStarted, added: Result<i32, PjsuaError>) -> (result:
        Result<CustomSinkMediaPortAdded<'a>, PjsuaError>)
        ensures
            match added {
                Ok(slot) => result matches Ok(port) && port.spec_port_slot() == slot && !port.is_released(),
                Err(e) => result == Err::<CustomSinkMediaPortAdded<'a>, PjsuaError>(e),
            },
    {
        CustomSinkMediaPortAdded::new(self, instance_started, added)
    }
}

/// A sink port in the mixing graph of a started instance, which it cannot
/// outlive.
pub struct CustomSinkMediaPortAdded<'a> {
    port_slot: i32,
    released: bool,
    _pjsua_instance: &'a PjsuaInstanceStarted,
}

impl<'a> CustomSinkMediaPortAdded<'a> {
    /// The slot of the port in the mixing graph.
    pub closed spec fn spec_port_slot(&self) -> i32 {
        self.port_slot
    }

    /// Whether the port was taken out of the mixing graph.
    pub closed spec fn is_released(&self) -> bool {
        self.released
    }

    /// See [`CustomSinkMediaPort::add`].
    pub fn new(
        media_port: CustomSinkMediaPort,
        pjsua_instance: &'a PjsuaInstanceStarted,
        added: Result<i32, PjsuaError>,
    ) -> (result: Result<CustomSinkMediaPortAdded<'a>, PjsuaError>)
        ensures
            match added {
                Ok(slot) => result matches Ok(port) && port.spec_port_slot() == slot && !port.is_released(),
                Err(e) => result == Err::<CustomSinkMediaPortAdded<'a>, PjsuaError>(e),
            },
    {
        match added {
            Ok(port_slot) => Ok(CustomSinkMediaPortAdded { port_slot, released: false, _pjsua_instance: pjsua_instance }),
            Err(e) => Err(e),
        }
    }

    /// The slot of the port in the mixing graph.
    #[verifier::when_used_as_spec(spec_port_slot)]
    pub fn port_slot(&self) -> (slot: i32)
        ensures
            slot == self.spec_port_slot(),
    {
        self.port_slot
    }

    /// What to ask of the engine when the port goes away: the first time
    /// [`port_teardown`] of its slot, after that nothing.
    pub fn release(&mut self) -> (requests: Vec<EngineRequest>)
        ensures
            requests@ == (if old(self).is_released() {
                Seq::<EngineRequest>::empty()
            } else {
                port_teardown(old(self).spec_port_slot())
            }),
            final(self).is_released(),
            final(self).spec_port_slot() == old(self).spec_port_slot(),
    {
        let mut requests: Vec<EngineRequest> = Vec::new();
        if !self.released {
            self.released = true;
            requests.push(EngineRequest::ConfRemovePort { slot: self.port_slot });
            requests.push(EngineRequest::PortDestroy { slot: self.port_slot });
            assert(requests@ =~= port_teardown(self.port_slot));
        }
        requests
    }
}

} // verus!
