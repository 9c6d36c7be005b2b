//! Loopback capture of system audio: the WASAPI formats accepted and the
//! frame channel that drops the newest frame when the consumer falls behind.

use vstd::prelude::*;
use vstd::string::*;
use super::frame::{AudioFrame, PcmFormat};
use crate::channel::{
    bounded_frame_channel, clone_frame_receiver, frame_receiver_capacity, frame_sender_capacity,
    try_deliver, Sent,
};
use crate::text::{nat_decimal, push_decimal};

verus! {

/// Frames the capture channel holds before it drops new ones.
pub const CAPTURE_CHANNEL_CAPACITY: usize = 128;

/// Why capture could not run.
#[derive(Debug, Clone)]
pub enum CaptureError {
    Unsupported(String),
    ThreadJoin(String),
}

/// How the device delivers samples.
#[derive(Debug, Clone, Copy, PartialEq, Eq)]
pub enum SampleFormat {
    Float32,
    Pcm16,
}

/// The name of a sample format, as `Debug` prints it.
pub open spec fn sample_format_name(f: SampleFormat) -> Seq<char> {
    match f {
        SampleFormat::Float32 => "Float32"@,
        SampleFormat::Pcm16 => "Pcm16"@,
    }
}

fn sample_format_label(f: SampleFormat) -> (r: &'static str)
    ensures
        r@ == sample_format_name(f),
{
    match f {
        SampleFormat::Float32 => "Float32",
        SampleFormat::Pcm16 => "Pcm16",
    }
}

/// A capture format of the audio engine.
#[derive(Debug, Clone, Copy, PartialEq, Eq)]
pub struct WasapiFormat {
    pub sample_rate: u32,
    pub channels: u16,
    pub bits_per_sample: u16,
    pub sample_format: SampleFormat,
}

/// The sample widths that go with each format: 32-bit float and 16-bit PCM.
pub open spec fn supported_format(sample_format: SampleFormat, bits_per_sample: u16) -> bool {
    match sample_format {
        SampleFormat::Float32 => bits_per_sample == 32,
        SampleFormat::Pcm16 => bits_per_sample == 16,
    }
}

/// The message of the error for an unsupported format.
pub open spec fn unsupported_format_message(sample_format: SampleFormat, bits: u16) -> Seq<char> {
    "unsupported WASAPI format: "@ + sample_format_name(sample_format) + " "@ + nat_decimal(
        bits as nat,
    ) + "-bit"@
}

impl WasapiFormat {
    /// The format with these parameters, when the sample width matches the
    /// sample format.
    pub fn new(
        sample_rate: u32,
        channels: u16,
        bits_per_sample: u16,
        sample_format: SampleFormat,
    ) -> (r: Result<Self, CaptureError>)
        ensures
            r is Ok <==> supported_format(sample_format, bits_per_sample),
            r matches Ok(f) ==> f == (WasapiFormat {
                sample_rate,
                channels,
                bits_per_sample,
                sample_format,
            }),
            r matches Err(e) ==> e matches CaptureError::Unsupported(m) && m@
                == unsupported_format_message(sample_format, bits_per_sample),
    {
        let supported = match sample_format {
            SampleFormat::Float32 => bits_per_sample == 32,
            SampleFormat::Pcm16 => bits_per_sample == 16,
        };
        if supported {
            Ok(WasapiFormat { sample_rate, channels, bits_per_sample, sample_format })
        } else {
            let mut message = String::from_str("unsupported WASAPI format: ");
            message.append(sample_format_label(sample_format));
            message.append(" ");
            push_decimal(&mut message, bits_per_sample as u64);
            message.append("-bit");
            Err(CaptureError::Unsupported(message))
        }
    }
}

/// The message of the error returned where event-driven loopback capture is
/// not available.
pub open spec fn loopback_unavailable_message() -> Seq<char> {
    "event-driven loopback requires Windows 10 or later"@
}

/// The text of a capture error, as it is displayed.
pub open spec fn capture_error_text(e: CaptureError) -> Seq<char> {
    match e {
        CaptureError::Unsupported(m) => "unsupported capture configuration: "@ + m@,
        CaptureError::ThreadJoin(m) => "capture thread join failed: "@ + m@,
    }
}

impl CaptureError {
    /// The error as it is displayed.
    pub fn message(&self) -> (r: String)
        ensures
            r@ == capture_error_text(*self),
    {
        match self {
            CaptureError::Unsupported(m) => {
                let mut text = String::from_str("unsupported capture configuration: ");
                text.append(m.as_str());
                text
            },
            CaptureError::ThreadJoin(m) => {
                let mut text = String::from_str("capture thread join failed: ");
                text.append(m.as_str());
                text
            },
        }
    }
}

/// The dropped-frame count after one send: one more (wrapping) when the
/// frame was refused, unchanged when it was accepted.
pub open spec fn dropped_after(dropped: u64, sent: Sent) -> u64 {
    match sent {
        Sent::Accepted => dropped,
        _ => if dropped == u64::MAX {
            0
        } else {
            (dropped + 1) as u64
        },
    }
}

/// Counts a frame that the channel refused.
pub fn record_send(dropped: u64, sent: Sent) -> (r: u64)
    ensures
        r == dropped_after(dropped, sent),
{
    match sent {
        Sent::Accepted => dropped,
        _ => dropped.wrapping_add(1),
    }
}

/// The count after sends that gave `sents`, in order, starting from `dropped`.
pub open spec fn dropped_after_all(dropped: u64, sents: Seq<Sent>) -> u64
    decreases sents.len(),
{
    if sents.len() == 0 {
        dropped
    } else {
        dropped_after(dropped_after_all(dropped, sents.drop_last()), sents.last())
    }
}

/// How many of `sents` left their frame out of the channel.
pub open spec fn refused_count(sents: Seq<Sent>) -> nat
    decreases sents.len(),
{
    if sents.len() == 0 {
        0
    } else {
        refused_count(sents.drop_last()) + if sents.last() is Accepted {
            0nat
        } else {
            1nat
        }
    }
}

/// A frame the channel refuses adds one to the count, whatever the count
/// was (wrapping past `u64::MAX`); one it accepts leaves the count alone.
pub proof fn refused_frame_adds_one(dropped: u64, sent: Sent)
    ensures
        dropped_after(dropped, sent) as int == (dropped + if sent is Accepted {
            0int
        } else {
            1int
        }) % 0x1_0000_0000_0000_0000,
{
    let m: int = 0x1_0000_0000_0000_0000;
    if sent is Accepted || dropped < u64::MAX {
        vstd::arithmetic::div_mod::lemma_small_mod(
            (dropped + if sent is Accepted {
                0int
            } else {
                1int
            }) as nat,
            m as nat,
        );
    } else {
        vstd::arithmetic::div_mod::lemma_mod_self_0(m);
    }
}

/// Every refused frame is counted: after a run of sends starting from
/// `dropped`, the count is `dropped` plus the number of frames the channel
/// refused, wrapping past `u64::MAX`.
pub proof fn every_refused_frame_is_counted(dropped: u64, sents: Seq<Sent>)
    ensures
        dropped_after_all(dropped, sents) as int == (dropped + refused_count(sents))
            % 0x1_0000_0000_0000_0000,
    decreases sents.len(),
{
    let m: int = 0x1_0000_0000_0000_0000;
    if sents.len() == 0 {
        vstd::arithmetic::div_mod::lemma_small_mod(dropped as nat, m as nat);
    } else {
        let init = sents.drop_last();
        let last = sents.last();
        every_refused_frame_is_counted(dropped, init);
        let prev = dropped_after_all(dropped, init);
        refused_frame_adds_one(prev, last);
        let x: int = if last is Accepted {
            0int
        } else {
            1int
        };
        let a: int = dropped + refused_count(init);
        vstd::arithmetic::div_mod::lemma_add_mod_noop(a, x, m);
        vstd::arithmetic::div_mod::lemma_small_mod(x as nat, m as nat);
        assert(prev as int == a % m);
        assert(dropped_after_all(dropped, sents) as int == (prev + x) % m);
        assert(refused_count(sents) == refused_count(init) + x);
    }
}

/// Offers `frame` to the channel without waiting; a frame the channel
/// cannot take is dropped and counted.
/// Returns what the channel did with the frame.
fn send_or_drop_newest(
    sender: &crossbeam_channel::Sender<AudioFrame>,
    dropped_frames: &mut u64,
    frame: AudioFrame,
) -> (sent: Sent)
    ensures
        *final(dropped_frames) == dropped_after(*old(dropped_frames), sent),
{
    let sent = try_deliver(sender, frame);
    *dropped_frames = record_send(*dropped_frames, sent);
    sent
}

/// Captured frames on their way to the consumer, with a count of the frames
/// dropped because the consumer fell behind.
pub struct LoopbackCapture {
    sender: crossbeam_channel::Sender<AudioFrame>,
    receiver: crossbeam_channel::Receiver<AudioFrame>,
    dropped_frames: u64,
}

/// The test frame: 320 silent samples of 16 kHz mono 16-bit PCM.
pub open spec fn is_test_frame(frame: AudioFrame, captured_at_ms: u64) -> bool {
    &&& frame.format.sample_rate == 16_000
    &&& frame.format.channels == 1
    &&& frame.format.bits_per_sample == 16
    &&& frame.samples@ == Seq::new(320, |i: int| 0i16)
    &&& frame.captured_at_ms == captured_at_ms
}

/// The silent test frame captured at `captured_at_ms`.
pub fn test_frame(captured_at_ms: u64) -> (r: AudioFrame)
    ensures
        is_test_frame(r, captured_at_ms),
{
    let mut samples: Vec<i16> = Vec::new();
    let mut i: usize = 0;
    while i < 320
        invariant
            i <= 320,
            samples@ == Seq::new(i as nat, |k: int| 0i16),
        decreases 320 - i,
    {
        samples.push(0);
        i = i + 1;
        assert(samples@ =~= Seq::new(i as nat, |k: int| 0i16));
    }
    AudioFrame {
        format: PcmFormat { sample_rate: 16_000, channels: 1, bits_per_sample: 16 },
        samples,
        captured_at_ms,
    }
}

impl LoopbackCapture {
    #[verifier::type_invariant]
    spec fn inv(self) -> bool {
        frame_receiver_capacity(self.receiver) == frame_sender_capacity(self.sender)
    }

    /// The capacity of the frame channel.
    pub closed spec fn capacity(self) -> Option<usize> {
        frame_sender_capacity(self.sender)
    }

    /// How many frames were dropped so far.
    pub closed spec fn dropped(self) -> u64 {
        self.dropped_frames
    }

    /// A capture for the device `_device_id`, with a channel of
    /// [`CAPTURE_CHANNEL_CAPACITY`] frames and nothing dropped yet.
    pub fn new_for_device(_device_id: &str) -> (r: Self)
        ensures
            r.dropped() == 0,
            r.capacity() == Some(CAPTURE_CHANNEL_CAPACITY),
    {
        Self::new_for_test_with_capacity(CAPTURE_CHANNEL_CAPACITY)
    }

    /// A capture whose channel holds `capacity` frames, nothing dropped yet.
    pub fn new_for_test_with_capacity(capacity: usize) -> (r: Self)
        requires
            capacity < usize::MAX / 4,
        ensures
            r.dropped() == 0,
            r.capacity() == Some(capacity),
    {
        let (sender, receiver) = bounded_frame_channel(capacity);
        LoopbackCapture { sender, receiver, dropped_frames: 0 }
    }

    /// Starts capturing from `device_id`. Where event-driven loopback capture
    /// is available (`loopback_available`), this is a fresh capture whose
    /// channel the platform's capture engine feeds through
    /// [`Self::push_frame`]; elsewhere it is refused as unsupported.
    pub fn start(device_id: &str, loopback_available: bool) -> (r: Result<Self, CaptureError>)
        ensures
            r is Ok <==> loopback_available,
            r matches Ok(c) ==> c.dropped() == 0 && c.capacity() == Some(CAPTURE_CHANNEL_CAPACITY),
            r matches Err(e) ==> e matches CaptureError::Unsupported(m) && m@
                == loopback_unavailable_message(),
    {
        start_platform_capture(device_id, loopback_available)
    }

    /// Another receiving end of the frame channel.
    pub fn receiver(&self) -> (r: crossbeam_channel::Receiver<AudioFrame>)
        ensures
            frame_receiver_capacity(r) == self.capacity(),
    {
        proof {
            use_type_invariant(self);
        }
        clone_frame_receiver(&self.receiver)
    }

    /// How many frames were dropped so far.
    pub fn dropped_frames(&self) -> (r: u64)
        ensures
            r == self.dropped(),
    {
        self.dropped_frames
    }

    /// Stops the capture.
    pub fn stop(self) -> (r: Result<(), CaptureError>)
        ensures
            r is Ok,
    {
        Ok(())
    }

    /// Offers a captured frame to the channel without waiting; when the
    /// channel cannot take it, it is dropped and counted.
    pub fn push_frame(&mut self, frame: AudioFrame) -> (sent: Sent)
        ensures
            final(self).dropped() == dropped_after(old(self).dropped(), sent),
            final(self).capacity() == old(self).capacity(),
    {
        proof {
            use_type_invariant(&*self);
        }
        let mut dropped = self.dropped_frames;
        let sent = send_or_drop_newest(&self.sender, &mut dropped, frame);
        self.dropped_frames = dropped;
        sent
    }

    /// Offers the silent test frame captured at `captured_at_ms` to the
    /// channel; when the channel cannot take it, it is dropped and counted.
    pub fn push_test_frame(&mut self, captured_at_ms: u64) -> (sent: Sent)
        ensures
            final(self).dropped() == dropped_after(old(self).dropped(), sent),
            final(self).capacity() == old(self).capacity(),
    {
        let frame = test_frame(captured_at_ms);
        self.push_frame(frame)
    }
}

/// A capture for `device_id` where loopback capture is available, the
/// platform's refusal elsewhere.
fn start_platform_capture(device_id: &str, loopback_available: bool) -> (r: Result<
    LoopbackCapture,
    CaptureError,
>)
    ensures
        r is Ok <==> loopback_available,
        r matches Ok(c) ==> c.dropped() == 0 && c.capacity() == Some(CAPTURE_CHANNEL_CAPACITY),
        r matches Err(e) ==> e matches CaptureError::Unsupported(m) && m@
            == loopback_unavailable_message(),
{
    if loopback_available {
        Ok(LoopbackCapture::new_for_device(device_id))
    } else {
        Err(
            CaptureError::Unsupported(
                String::from_str("event-driven loopback requires Windows 10 or later"),
            ),
        )
    }
}

} // verus!
