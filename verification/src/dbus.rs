//! Times as the desktop's media-player interface counts them: in whole
//! microseconds, in a signed number of 64 bits.

use crate::time::Duration;
use crate::types::SeekPosition;
use vstd::prelude::*;

verus! {

/// The most microseconds that the interface can count.
pub const MAX_MICROS: u128 = 0x7FFF_FFFF_FFFF_FFFF;

/// `time` in whole microseconds. A span of more microseconds than the
/// interface can count keeps the low 64 bits of its count.
pub fn as_dbus_time(time: Duration) -> (micros: i64)
    ensures
        micros == (time@ / 1_000) as i64,
        time@ / 1_000 <= MAX_MICROS ==> micros == time@ / 1_000,
{
    let wide: u128 = time.as_micros();
    if wide <= MAX_MICROS {
        wide as i64
    } else {
        #[verifier::truncate]
        (wide as i64)
    }
}

/// The span of `time` microseconds. A negative count is read as the
/// unsigned number of the same 64 bits.
pub fn from_dbus_time(time: i64) -> (span: Duration)
    ensures
        span@ == (time as u64) * 1_000,
        time >= 0 ==> span@ == time * 1_000,
{
    let micros: u64 = if time >= 0 {
        time as u64
    } else {
        #[verifier::truncate]
        (time as u64)
    };
    Duration::from_micros(micros)
}

/// The seek that an offset of `micros` microseconds from where the track
/// stands asks for: forward by a positive offset, backward by the size of
/// a negative one, and none at all for an offset of zero.
pub open spec fn spec_seek_by(micros: i64) -> Option<SeekPosition> {
    if micros == 0 {
        None
    } else if micros > 0 {
        Some(SeekPosition::Forward(Duration::of_nanos((micros * 1_000) as nat)))
    } else {
        Some(SeekPosition::Backward(Duration::of_nanos((-micros * 1_000) as nat)))
    }
}

/// The seek that an offset of `micros` microseconds asks for.
#[verifier::when_used_as_spec(spec_seek_by)]
pub fn seek_by(micros: i64) -> (seek: Option<SeekPosition>)
    ensures
        seek == spec_seek_by(micros),
{
    if micros == 0 {
        None
    } else if micros > 0 {
        let span = Duration::from_micros(micros as u64);
        proof {
            Duration::lemma_of_nanos((micros * 1_000) as nat);
            Duration::lemma_view_injective(span, Duration::of_nanos((micros * 1_000) as nat));
        }
        Some(SeekPosition::Forward(span))
    } else {
        let size: u64 = if micros == i64::MIN {
            0x8000_0000_0000_0000
        } else {
            (-micros) as u64
        };
        let span = Duration::from_micros(size);
        proof {
            Duration::lemma_of_nanos((-micros * 1_000) as nat);
            Duration::lemma_view_injective(span, Duration::of_nanos((-micros * 1_000) as nat));
        }
        Some(SeekPosition::Backward(span))
    }
}

/// The seek that a position of `micros` microseconds from the start of
/// the track asks for. There is no position before the start: a negative
/// one asks for nothing.
pub open spec fn spec_seek_to(micros: i64) -> Option<SeekPosition> {
    if micros < 0 {
        None
    } else {
        Some(SeekPosition::To(Duration::of_nanos((micros * 1_000) as nat)))
    }
}

/// The seek that a position of `micros` microseconds asks for.
#[verifier::when_used_as_spec(spec_seek_to)]
pub fn seek_to(micros: i64) -> (seek: Option<SeekPosition>)
    ensures
        seek == spec_seek_to(micros),
{
    if micros < 0 {
        None
    } else {
        let span = Duration::from_micros(micros as u64);
        proof {
            Duration::lemma_of_nanos((micros * 1_000) as nat);
            Duration::lemma_view_injective(span, Duration::of_nanos((micros * 1_000) as nat));
        }
        Some(SeekPosition::To(span))
    }
}

} // verus!
