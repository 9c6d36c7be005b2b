//! Frames of 16-bit PCM audio and their duration.

use vstd::prelude::*;

verus! {

/// The layout of PCM samples.
#[derive(Debug, Clone, Copy)]
pub struct PcmFormat {
    pub sample_rate: u32,
    pub channels: u16,
    pub bits_per_sample: u16,
}

/// A block of interleaved 16-bit samples and the time it was captured.
#[derive(Debug, Clone)]
pub struct AudioFrame {
    pub format: PcmFormat,
    pub samples: Vec<i16>,
    pub captured_at_ms: u64,
}

/// The duration in whole milliseconds of `sample_count` interleaved samples
/// in `format`, computed in 32-bit arithmetic as the frame does (the sample
/// count taken modulo 2^32); `0` for a format without rate or channels.
pub open spec fn frame_duration_ms(format: PcmFormat, sample_count: nat) -> int {
    if format.sample_rate == 0 || format.channels == 0 {
        0
    } else {
        ((sample_count as u32) as int / format.channels as int) * 1000 / format.sample_rate as int
    }
}

/// Whether the duration of `sample_count` samples in `format` can be
/// computed without overflowing 32 bits.
pub open spec fn duration_fits(format: PcmFormat, sample_count: nat) -> bool {
    format.sample_rate == 0 || format.channels == 0 || ((sample_count as u32) as int
        / format.channels as int) * 1000 <= u32::MAX
}

impl AudioFrame {
    /// How long the frame plays, in whole milliseconds.
    pub fn duration_ms(&self) -> (r: u32)
        requires
            duration_fits(self.format, self.samples@.len()),
        ensures
            r as int == frame_duration_ms(self.format, self.samples@.len()),
    {
        if self.format.sample_rate == 0 || self.format.channels == 0 {
            return 0;
        }
        let sample_frames: u32 = self.samples.len() as u32 / self.format.channels as u32;
        sample_frames * 1000 / self.format.sample_rate
    }
}

} // verus!
