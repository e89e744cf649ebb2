//! Audio formats and frames.

use vstd::prelude::*;
use vstd::string::StringExecFns;
use crate::decimal::{decimal, push_decimal, push_signed_decimal, signed_decimal};
use crate::engine::EngineRequest;
use crate::error::{PjsuaError, LOCAL_ERROR};

verus! {

/// Samples are 16-bit linear PCM.
pub const BITS_PER_SAMPLE: usize = 16;

/// The audio details of a port's format, as the mixing graph takes them.
#[derive(Debug, Clone, Copy, PartialEq, Eq, Structural)]
pub struct AudioFormatDetail {
    pub clock_rate: u32,
    pub channel_count: u32,
    pub frame_time_usec: u32,
    pub bits_per_sample: u32,
    pub avg_bps: u32,
    pub max_bps: u32,
}

/// The duration in milliseconds that the mixing graph derives for a port,
/// each division rounding down. It is zero where a divisor is zero.
pub open spec fn port_ptime(samples_per_frame: nat, channel_count: nat, clock_rate: nat) -> nat {
    if channel_count == 0 || clock_rate == 0 {
        0
    } else {
        samples_per_frame / channel_count * 1000 / clock_rate
    }
}

/// The duration of one frame in microseconds, rounded down; zero where a
/// divisor is zero.
pub open spec fn frame_time_usec(samples_per_frame: nat, channels_count: nat, sample_rate: nat) -> nat {
    if channels_count == 0 || sample_rate == 0 {
        0
    } else {
        samples_per_frame * 1_000_000 / channels_count / sample_rate
    }
}

/// The bit rate of a stream of 16-bit samples.
pub open spec fn bit_rate(sample_rate: nat, channels_count: nat) -> nat {
    sample_rate * channels_count * 16
}

/// A format that a port can be made with: its frames last at least a
/// millisecond, and its channel count and bit rate fit the 32-bit fields of
/// the mixing graph.
pub open spec fn format_is_valid(sample_rate: nat, channels_count: nat, samples_per_frame: nat) -> bool {
    &&& port_ptime(samples_per_frame, channels_count, sample_rate) >= 1
    &&& channels_count <= u32::MAX
    &&& bit_rate(sample_rate, channels_count) <= u32::MAX
}

/// The details of a valid format. The duration of a frame is cut to the 32
/// bits of its field.
pub open spec fn format_detail(sample_rate: nat, channels_count: nat, samples_per_frame: nat) -> AudioFormatDetail {
    AudioFormatDetail {
        clock_rate: sample_rate as u32,
        channel_count: channels_count as u32,
        frame_time_usec: (frame_time_usec(samples_per_frame, channels_count, sample_rate) % 0x1_0000_0000) as u32,
        bits_per_sample: 16,
        avg_bps: bit_rate(sample_rate, channels_count) as u32,
        max_bps: bit_rate(sample_rate, channels_count) as u32,
    }
}

/// A format whose channel count and bit rate fit the 32-bit fields of the
/// mixing graph is valid exactly when its frames last a millisecond or
/// more; a format whose frames would last zero milliseconds is never valid,
/// so that no port is made with it.
pub proof fn law_zero_period_is_refused(sample_rate: nat, channels_count: nat, samples_per_frame: nat)
    ensures
        port_ptime(samples_per_frame, channels_count, sample_rate) == 0 ==> !format_is_valid(
            sample_rate,
            channels_count,
            samples_per_frame,
        ),
        channels_count <= u32::MAX && bit_rate(sample_rate, channels_count) <= u32::MAX ==> (format_is_valid(
            sample_rate,
            channels_count,
            samples_per_frame,
        ) <==> port_ptime(samples_per_frame, channels_count, sample_rate) >= 1),
{
}

/// The message of the error for a frame that lasts less than a millisecond.
pub open spec fn zero_ptime_message() -> Seq<char> {
    "samples_per_frame is too low! port_ptime = samples_per_frame / channel_count * 1000 / clock_rate is 0!"@
}

/// The message of the error for a format that the 32-bit fields cannot hold.
pub open spec fn unrepresentable_message() -> Seq<char> {
    "audio format does not fit the 32-bit fields of the mixing graph"@
}

proof fn lemma_quotient_bounded(a: nat, b: nat)
    requires
        b > 0,
    ensures
        a / b <= a,
{
    assert(a / b <= a) by (nonlinear_arith)
        requires
            b > 0,
    ;
}

fn ptime_of(samples_per_frame: usize, channel_count: usize, clock_rate: u32) -> (ptime: u128)
    ensures
        ptime == port_ptime(samples_per_frame as nat, channel_count as nat, clock_rate as nat),
{
    if channel_count == 0 || clock_rate == 0 {
        return 0;
    }
    let per_channel: u128 = samples_per_frame as u128 / channel_count as u128;
    proof {
        lemma_quotient_bounded(samples_per_frame as nat, channel_count as nat);
    }
    per_channel * 1000 / clock_rate as u128
}

/// Refuses a format whose frames the mixing graph would take to last zero
/// milliseconds: it divides by that duration.
pub fn perform_pjmedia_format_checks_zero_division(
    samples_per_frame: usize,
    audio_format_detail: &AudioFormatDetail,
) -> (result: Result<(), PjsuaError>)
    ensures
        result is Ok <==> port_ptime(
            samples_per_frame as nat,
            audio_format_detail.channel_count as nat,
            audio_format_detail.clock_rate as nat,
        ) >= 1,
        result matches Err(e) ==> e.code == LOCAL_ERROR && e.message@ == zero_ptime_message(),
{
    let port_ptime = ptime_of(
        samples_per_frame,
        audio_format_detail.channel_count as usize,
        audio_format_detail.clock_rate,
    );
    if port_ptime == 0 {
        return Err(
            PjsuaError::local(
                "samples_per_frame is too low! port_ptime = samples_per_frame / channel_count * 1000 / clock_rate is 0!",
            ),
        );
    }
    Ok(())
}

/// The time that one sample takes, in whole microseconds.
pub open spec fn sample_duration_micros(sample_rate: nat, channels_count: nat) -> nat {
    1_000_000nat / channels_count / sample_rate
}

/// The time that one sample takes, in whole microseconds.
pub fn sample_duration(sample_rate: u32, channels_count: usize) -> (micros: u64)
    requires
        sample_rate > 0,
        channels_count > 0,
    ensures
        micros == sample_duration_micros(sample_rate as nat, channels_count as nat),
        micros <= 1_000_000,
{
    let per_channel: u64 = 1_000_000 / channels_count as u64;
    proof {
        lemma_quotient_bounded(1_000_000, channels_count as nat);
        lemma_quotient_bounded(per_channel as nat, sample_rate as nat);
    }
    per_channel / sample_rate as u64
}

/// The format of a port of 16-bit samples, or the reason why no port can
/// have it: its frames would last zero milliseconds, or its channel count
/// or bit rate does not fit a 32-bit field. The duration of a frame in
/// microseconds is cut to 32 bits.
pub fn port_format(sample_rate: u32, channels_count: usize, samples_per_frame: usize) -> (result: Result<
    AudioFormatDetail,
    PjsuaError,
>)
    ensures
        result is Ok <==> format_is_valid(sample_rate as nat, channels_count as nat, samples_per_frame as nat),
        result matches Ok(detail) ==> detail == format_detail(
            sample_rate as nat,
            channels_count as nat,
            samples_per_frame as nat,
        ),
        result matches Err(e) ==> e.code == LOCAL_ERROR && e.message@ == (if port_ptime(
            samples_per_frame as nat,
            channels_count as nat,
            sample_rate as nat,
        ) == 0 {
            zero_ptime_message()
        } else {
            unrepresentable_message()
        }),
{
    if ptime_of(samples_per_frame, channels_count, sample_rate) == 0 {
        return Err(
            PjsuaError::local(
                "samples_per_frame is too low! port_ptime = samples_per_frame / channel_count * 1000 / clock_rate is 0!",
            ),
        );
    }
    if channels_count > u32::MAX as usize {
        return Err(PjsuaError::local("audio format does not fit the 32-bit fields of the mixing graph"));
    }
    let usec: u128 = samples_per_frame as u128 * 1_000_000 / channels_count as u128 / sample_rate as u128;
    assert(sample_rate as u128 * channels_count as u128 <= 0xffff_ffff * 0xffff_ffff) by (nonlinear_arith)
        requires
            sample_rate <= 0xffff_ffff,
            channels_count <= 0xffff_ffff,
    ;
    let bps: u128 = sample_rate as u128 * channels_count as u128 * 16;
    if bps > u32::MAX as u128 {
        return Err(PjsuaError::local("audio format does not fit the 32-bit fields of the mixing graph"));
    }
    Ok(
        AudioFormatDetail {
            clock_rate: sample_rate,
            channel_count: channels_count as u32,
            frame_time_usec: (usec % 0x1_0000_0000) as u32,
            bits_per_sample: 16,
            avg_bps: bps as u32,
            max_bps: bps as u32,
        },
    )
}

/// The kind of a frame of the engine.
#[derive(Debug, Clone, Copy, PartialEq, Eq, Structural)]
pub enum FrameType {
    /// No payload.
    NoFrame,
    /// 16-bit audio samples.
    Audio,
    /// Any other kind.
    Other,
}

/// A frame as the engine hands it to a port, copied out of the engine's
/// memory. `buf` is `None` where the engine gave no buffer.
/// `samples_elapsed` is what the engine's clock counts from zero to the
/// frame's timestamp.
pub struct RawFrame {
    pub buf: Option<Vec<u8>>,
    pub frame_type: FrameType,
    pub samples_elapsed: u32,
}

/// The name of a port: a prefix and the port's number.
pub open spec fn port_name(prefix: Seq<char>, number: nat) -> Seq<char> {
    prefix + crate::decimal::decimal(number)
}

/// What is asked of the engine to take a port out of the mixing graph, in
/// this order: the slot is removed before the port object is destroyed.
pub open spec fn port_teardown(slot: i32) -> Seq<EngineRequest> {
    seq![EngineRequest::ConfRemovePort { slot }, EngineRequest::PortDestroy { slot }]
}

/// A unit of audio: 16-bit samples, and the time of the first of them in
/// microseconds on the engine's sample clock.
#[derive(Debug)]
pub struct Frame {
    pub data: Vec<i16>,
    pub time: u64,
}

/// What a frame is: its samples and its time in microseconds.
pub ghost struct FrameView {
    pub samples: Seq<i16>,
    pub time: nat,
}

impl View for Frame {
    type V = FrameView;

    open spec fn view(&self) -> FrameView {
        FrameView { samples: self.data@, time: self.time as nat }
    }
}

/// The sample that two bytes hold, the low byte first, in two's complement.
pub open spec fn sample_from_le(lo: u8, hi: u8) -> i16 {
    let unsigned = lo as int + 256 * (hi as int);
    if unsigned < 0x8000 {
        unsigned as i16
    } else {
        (unsigned - 0x1_0000) as i16
    }
}

/// The low byte of a sample in two's complement.
pub open spec fn sample_lo(sample: i16) -> u8 {
    let unsigned = if sample < 0 {
        sample as int + 0x1_0000
    } else {
        sample as int
    };
    (unsigned % 256) as u8
}

/// The high byte of a sample in two's complement.
pub open spec fn sample_hi(sample: i16) -> u8 {
    let unsigned = if sample < 0 {
        sample as int + 0x1_0000
    } else {
        sample as int
    };
    (unsigned / 256) as u8
}

/// The samples that a buffer holds, two bytes each, the low byte first. A
/// last byte without a partner is left out.
pub open spec fn samples_from_le(bytes: Seq<u8>) -> Seq<i16> {
    Seq::new(bytes.len() / 2, |i: int| sample_from_le(bytes[2 * i], bytes[2 * i + 1]))
}

/// The bytes of samples, two each, the low byte first.
pub open spec fn samples_to_le(samples: Seq<i16>) -> Seq<u8> {
    Seq::new(
        2 * samples.len(),
        |i: int|
            if i % 2 == 0 {
                sample_lo(samples[i / 2])
            } else {
                sample_hi(samples[i / 2])
            },
    )
}

fn sample_of(lo: u8, hi: u8) -> (sample: i16)
    ensures
        sample == sample_from_le(lo, hi),
{
    let unsigned: i32 = lo as i32 + 256 * (hi as i32);
    if unsigned < 0x8000 {
        unsigned as i16
    } else {
        (unsigned - 0x1_0000) as i16
    }
}

fn bytes_of(sample: i16) -> (bytes: (u8, u8))
    ensures
        bytes.0 == sample_lo(sample),
        bytes.1 == sample_hi(sample),
{
    let unsigned: i32 = if sample < 0 {
        sample as i32 + 0x1_0000
    } else {
        sample as i32
    };
    ((unsigned % 256) as u8, (unsigned / 256) as u8)
}

/// The bytes of samples, two each, the low byte first.
pub fn samples_as_bytes(samples: &Vec<i16>) -> (bytes: Vec<u8>)
    ensures
        bytes@ == samples_to_le(samples@),
{
    let mut bytes: Vec<u8> = Vec::new();
    let mut i: usize = 0;
    while i < samples.len()
        invariant
            i <= samples.len(),
            bytes@.len() == 2 * i,
            forall|j: int| 0 <= j < 2 * i ==> bytes@[j] == samples_to_le(samples@)[j],
        decreases samples.len() - i,
    {
        let (lo, hi) = bytes_of(samples[i]);
        bytes.push(lo);
        bytes.push(hi);
        proof {
            assert((2 * i as int) % 2 == 0 && (2 * i as int) / 2 == i);
            assert((2 * i as int + 1) % 2 == 1 && (2 * i as int + 1) / 2 == i);
        }
        i = i + 1;
    }
    assert(bytes@ =~= samples_to_le(samples@));
    bytes
}

impl Frame {
    /// A frame of the given samples at the given time.
    pub fn new(data: Vec<i16>, time: u64) -> (frame: Frame)
        ensures
            frame@ == (FrameView { samples: data@, time: time as nat }),
    {
        Frame { data, time }
    }

    /// The frame that a buffer of the engine holds. `samples_elapsed` is what
    /// the engine's clock counts from zero to the buffer's timestamp; the
    /// frame's time is that many sample durations.
    pub fn from_raw_frame(buf: &[u8], samples_elapsed: u32, sample_rate: u32, channels_count: usize) -> (frame:
        Frame)
        requires
            sample_rate > 0,
            channels_count > 0,
        ensures
            frame@.samples == samples_from_le(buf@),
            frame@.time == samples_elapsed * sample_duration_micros(sample_rate as nat, channels_count as nat),
    {
        let count: usize = buf.len() / 2;
        let mut data: Vec<i16> = Vec::new();
        let mut i: usize = 0;
        while i < count
            invariant
                count == buf@.len() / 2,
                buf@.len() <= usize::MAX,
                i <= count,
                data@.len() == i,
                forall|j: int| 0 <= j < i ==> data@[j] == sample_from_le(buf@[2 * j], buf@[2 * j + 1]),
            decreases count - i,
        {
            data.push(sample_of(buf[2 * i], buf[2 * i + 1]));
            i = i + 1;
        }
        assert(data@ =~= samples_from_le(buf@));
        let per_sample: u64 = sample_duration(sample_rate, channels_count);
        assert(samples_elapsed * per_sample <= 0xffff_ffff * 1_000_000) by (nonlinear_arith)
            requires
                samples_elapsed <= 0xffff_ffff,
                per_sample <= 1_000_000,
        ;
        Frame { data, time: samples_elapsed as u64 * per_sample }
    }
}

/// Samples as a list in text: their decimal numbers, a comma and a blank
/// between them.
pub open spec fn samples_text(samples: Seq<i16>) -> Seq<char>
    decreases samples.len(),
{
    if samples.len() == 0 {
        Seq::<char>::empty()
    } else if samples.len() == 1 {
        signed_decimal(samples[0] as int)
    } else {
        samples_text(samples.drop_last()) + ", "@ + signed_decimal(samples.last() as int)
    }
}

/// A frame in text: `Frame { data: [1, -2], time: 3 }` for the samples 1
/// and -2 at 3 microseconds.
pub open spec fn frame_text(samples: Seq<i16>, time: nat) -> Seq<char> {
    "Frame { data: ["@ + samples_text(samples) + "], time: "@ + decimal(time) + " }"@
}

/// Appends a frame in text to `out`.
fn push_frame(out: &mut String, frame: &Frame)
    ensures
        final(out)@ == old(out)@ + frame_text(frame.data@, frame.time as nat),
{
    out.append("Frame { data: [");
    let ghost start = out@;
    let mut i: usize = 0;
    while i < frame.data.len()
        invariant
            i <= frame.data@.len(),
            out@ == start + samples_text(frame.data@.subrange(0, i as int)),
        decreases frame.data.len() - i,
    {
        let ghost before = frame.data@.subrange(0, i as int);
        let ghost after = frame.data@.subrange(0, i as int + 1);
        if i > 0 {
            out.append(", ");
        }
        push_signed_decimal(out, frame.data[i] as i32);
        proof {
            assert(after.drop_last() =~= before);
            assert(after.last() == frame.data@[i as int]);
            if i == 0 {
                assert(samples_text(before) =~= Seq::<char>::empty());
                assert(out@ =~= start + samples_text(after));
            } else {
                assert(out@ =~= start + samples_text(after));
            }
        }
        i = i + 1;
    }
    assert(frame.data@.subrange(0, i as int) =~= frame.data@);
    out.append("], time: ");
    push_decimal(out, frame.time);
    out.append(" }");
    assert(out@ =~= old(out)@ + frame_text(frame.data@, frame.time as nat));
}

/// Why a frame was not queued for the engine.
#[derive(Debug)]
pub enum SendError {
    /// The queue takes no more frames.
    SendErr,
    /// The frame holds more samples than a frame of the port; it comes back.
    InvalidSizeFrameError(Frame),
}

impl SendError {
    /// What [`SendError::to_string`] returns.
    pub open spec fn text(&self) -> Seq<char> {
        match self {
            SendError::SendErr => "SendErr"@,
            SendError::InvalidSizeFrameError(frame) => "InvalidSizeFrameError: "@ + frame_text(
                frame.data@,
                frame.time as nat,
            ),
        }
    }

    /// The error as one line of text.
    pub fn to_string(&self) -> (line: String)
        ensures
            line@ == self.text(),
    {
        match self {
            SendError::SendErr => String::from_str("SendErr"),
            SendError::InvalidSizeFrameError(frame) => {
                let mut line = String::from_str("InvalidSizeFrameError: ");
                push_frame(&mut line, frame);
                line
            },
        }
    }
}

} // verus!
