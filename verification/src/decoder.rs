//! What a decoder decides: where a seek may go, how it lines up with the
//! channels, and what becomes of a packet.

use crate::time::Duration;
use vstd::prelude::*;

verus! {

/// Where a seek to `target` goes in a track of the given length: to
/// `target`, or to the end of the track if `target` lies beyond it. In a
/// track of unknown length it goes to `target`.
pub open spec fn spec_clamp_seek(target: Duration, total_duration: Option<Duration>) -> Duration {
    match total_duration {
        Some(total) => target.spec_min(total),
        None => target,
    }
}

/// Where a seek to `target` goes in a track of the given length: a seek
/// beyond the end is no error, it goes to the end.
#[verifier::when_used_as_spec(spec_clamp_seek)]
pub fn clamp_seek(target: Duration, total_duration: Option<Duration>) -> (clamped: Duration)
    ensures
        clamped == spec_clamp_seek(target, total_duration),
        total_duration matches Some(total) ==> clamped@ <= total@,
        clamped@ <= target@,
{
    match total_duration {
        Some(total) => target.min(total),
        None => target,
    }
}

/// The channel that the sample at `span_offset` of an interleaved buffer
/// belongs to. Without channels there is only the channel 0.
pub fn active_channel(span_offset: usize, channels: u16) -> (channel: usize)
    ensures
        channels > 0 ==> channel == span_offset % (channels as usize),
        channels == 0 ==> channel == 0,
{
    if channels == 0 {
        0
    } else {
        span_offset % (channels as usize)
    }
}

/// `samples` rounded down to whole frames of `channels` samples each, so
/// that skipping that many samples ends on the first channel.
pub fn align_to_frame(samples: usize, channels: u16) -> (aligned: usize)
    ensures
        channels > 0 ==> aligned == samples - samples % (channels as usize),
        channels == 0 ==> aligned == samples,
        aligned <= samples,
{
    if channels == 0 {
        samples
    } else {
        let width = channels as usize;
        let rest = samples % width;
        assert(rest <= samples) by (nonlinear_arith)
            requires
                width > 0,
                rest == samples % width,
        ;
        samples - rest
    }
}

/// What came of decoding one packet.
#[derive(Clone, Copy, Debug, PartialEq, Eq, Structural)]
pub enum Decoded {
    /// The packet decoded and holds this many audio frames.
    Frames(usize),
    /// The packet is damaged.
    DecodeError,
    /// The stream failed in some other way.
    Failed,
}

/// What the decoder does with a packet.
#[derive(Clone, Copy, Debug, PartialEq, Eq, Structural)]
pub enum PacketAction {
    /// Hand out its samples.
    Deliver,
    /// Pass it over and take the next.
    Skip,
    /// End the stream.
    End,
}

/// A packet with audio is handed out. A packet without audio and a damaged
/// packet are passed over, however many of them come in a row. Any other
/// failure ends the stream.
pub open spec fn spec_packet_action(decoded: Decoded) -> PacketAction {
    match decoded {
        Decoded::Frames(frames) => if frames > 0 {
            PacketAction::Deliver
        } else {
            PacketAction::Skip
        },
        Decoded::DecodeError => PacketAction::Skip,
        Decoded::Failed => PacketAction::End,
    }
}

#[verifier::when_used_as_spec(spec_packet_action)]
pub fn packet_action(decoded: Decoded) -> (action: PacketAction)
    ensures
        action == spec_packet_action(decoded),
{
    match decoded {
        Decoded::Frames(frames) => if frames > 0 {
            PacketAction::Deliver
        } else {
            PacketAction::Skip
        },
        Decoded::DecodeError => PacketAction::Skip,
        Decoded::Failed => PacketAction::End,
    }
}

} // verus!
