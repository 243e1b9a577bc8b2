//! The root of the audio output: what it plays when nothing is armed, and
//! how long it lets a span of samples be.

use vstd::prelude::*;

verus! {

/// The most samples that the output lets a span be where nothing better is
/// known, and the length of the silence that it plays when no source is
/// armed.
pub const THRESHOLD: usize = 512;

/// The sample rate of that silence where no source came before it, in Hz.
pub const SILENCE_SAMPLE_RATE: u32 = 44100;

/// The number of channels of that silence where no source came before it.
pub const SILENCE_CHANNELS: u16 = 1;

/// The channels and the sample rate of the silence that follows a source
/// with the given channels and sample rate: the same, so that the stream
/// goes on as it was. After a source without channels or without a rate
/// the silence has one channel at 44100 Hz.
pub fn silence_layout(channels: u16, sample_rate: u32) -> (layout: (u16, u32))
    ensures
        layout == if channels > 0 && sample_rate > 0 {
            (channels, sample_rate)
        } else {
            (SILENCE_CHANNELS, SILENCE_SAMPLE_RATE)
        },
        layout.0 > 0,
        layout.1 > 0,
{
    if channels > 0 && sample_rate > 0 {
        (channels, sample_rate)
    } else {
        (SILENCE_CHANNELS, SILENCE_SAMPLE_RATE)
    }
}

/// How many samples the output has in its current span, given what the
/// source that is playing says of its own span and the least number of
/// samples that it still has. A source that knows its span is believed,
/// unless it says zero: then silence follows. Otherwise the least number of
/// samples left is taken, unless it is zero too.
pub open spec fn spec_span_len(source_span_len: Option<usize>, lower_bound: usize) -> usize {
    match source_span_len {
        Some(len) => if len != 0 {
            len
        } else {
            THRESHOLD
        },
        None => if lower_bound > 0 {
            lower_bound
        } else {
            THRESHOLD
        },
    }
}

/// How many samples the output has in its current span. It always has
/// some.
pub fn span_len(source_span_len: Option<usize>, lower_bound: usize) -> (len: Option<usize>)
    ensures
        len == Some(spec_span_len(source_span_len, lower_bound)),
        len->Some_0 > 0,
{
    match source_span_len {
        Some(len) => if len != 0 {
            Some(len)
        } else {
            Some(THRESHOLD)
        },
        None => if lower_bound > 0 {
            Some(lower_bound)
        } else {
            Some(THRESHOLD)
        },
    }
}

} // verus!
