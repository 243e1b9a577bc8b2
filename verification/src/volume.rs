//! The playback volume: a linear amplitude scale between silence and full.

use vstd::prelude::*;

verus! {

/// The bit pattern of the number one in IEEE-754 single precision.
pub const FULL_BITS: u32 = 0x3F80_0000;

/// The bit pattern of positive infinity in IEEE-754 single precision. Every
/// pattern above it is either a NaN or has the sign bit set.
pub const INFINITY_BITS: u32 = 0x7F80_0000;

/// What a single-precision bit pattern becomes when it is clamped to the
/// range from zero to one: a number above one becomes one; a negative number,
/// negative zero and every NaN become zero; every other pattern stays.
/// Between zero and one the patterns are ordered as the numbers are.
pub open spec fn clamp_bits(bits: u32) -> u32 {
    if bits > INFINITY_BITS {
        0
    } else if bits > FULL_BITS {
        FULL_BITS
    } else {
        bits
    }
}

/// A volume between silence and full, carried as the bit pattern of a
/// single-precision number in the range from zero to one. Its view is that
/// pattern, which is never above [`FULL_BITS`].
#[derive(Clone, Copy, Debug, PartialEq, Eq, Structural)]
pub struct Volume {
    bits: u32,
}

impl View for Volume {
    type V = u32;

    closed spec fn view(&self) -> u32 {
        self.bits
    }
}

impl Volume {
    #[verifier::type_invariant]
    spec fn in_range(self) -> bool {
        self.bits <= FULL_BITS
    }

    /// The volume for the given bit pattern, clamped to the range.
    pub fn from_bits(bits: u32) -> (v: Volume)
        ensures
            v@ == clamp_bits(bits),
    {
        if bits > INFINITY_BITS {
            Volume { bits: 0 }
        } else if bits > FULL_BITS {
            Volume { bits: FULL_BITS }
        } else {
            Volume { bits }
        }
    }

    /// Full volume.
    pub closed spec fn spec_full() -> Volume {
        Volume { bits: FULL_BITS }
    }

    /// Full volume is the number one.
    pub proof fn lemma_full()
        ensures
            Volume::spec_full()@ == FULL_BITS,
    {
    }

    /// Full volume.
    #[verifier::when_used_as_spec(spec_full)]
    pub fn full() -> (v: Volume)
        ensures
            v@ == FULL_BITS,
            v == Volume::spec_full(),
    {
        Volume { bits: FULL_BITS }
    }

    /// Silence.
    pub fn silent() -> (v: Volume)
        ensures
            v@ == 0,
    {
        Volume { bits: 0 }
    }

    /// The bit pattern of this volume.
    pub fn to_bits(&self) -> (bits: u32)
        ensures
            bits == self@,
            bits <= FULL_BITS,
    {
        proof {
            use_type_invariant(self);
        }
        self.bits
    }
}

} // verus!
