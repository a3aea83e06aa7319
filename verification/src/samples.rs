//! Audio samples as bit patterns.
//!
//! A sample is a single-precision number in the IEEE 754 binary32 format,
//! carried as the 32 bits of its encoding. Comparisons against a threshold
//! are made on the bits: for two numbers that are not negative and not NaN,
//! the larger number has the larger pattern.

use vstd::prelude::*;

verus! {

/// The pattern of positive infinity. A pattern whose magnitude is greater
/// encodes no number.
pub const INFINITY_BITS: u32 = 0x7F80_0000;

/// The pattern of one hundredth, the amplitude up to which a sample counts
/// as silence.
pub const SILENCE_THRESHOLD_BITS: u32 = 0x3C23_D70A;

/// The pattern of one half, the probability above which a frame counts as
/// speech.
pub const SPEECH_THRESHOLD_BITS: u32 = 0x3F00_0000;

/// The pattern of zero.
pub const ZERO_BITS: u32 = 0;

/// The pattern with its sign bit cleared: the encoding of the absolute value.
pub open spec fn magnitude(bits: u32) -> u32 {
    bits & 0x7FFF_FFFFu32
}

/// The absolute value of the sample is a number greater than the silence
/// threshold.
pub open spec fn loud(bits: u32) -> bool {
    SILENCE_THRESHOLD_BITS < magnitude(bits) <= INFINITY_BITS
}

/// The probability is a number greater than the speech threshold.
pub open spec fn speech(bits: u32) -> bool {
    SPEECH_THRESHOLD_BITS < bits <= INFINITY_BITS
}

/// Whether a sample is louder than the silence threshold.
pub fn is_loud(bits: u32) -> (r: bool)
    ensures
        r == loud(bits),
{
    let m = bits & 0x7FFF_FFFFu32;
    SILENCE_THRESHOLD_BITS < m && m <= INFINITY_BITS
}

/// Whether a probability says speech.
pub fn is_speech(bits: u32) -> (r: bool)
    ensures
        r == speech(bits),
{
    SPEECH_THRESHOLD_BITS < bits && bits <= INFINITY_BITS
}

/// A copy of `samples`.
pub fn copy_samples(samples: &[u32]) -> (copy: Vec<u32>)
    ensures
        copy@ == samples@,
{
    let mut copy: Vec<u32> = Vec::new();
    copy.extend_from_slice(samples);
    copy
}

/// Zero is silence.
pub proof fn lemma_zero_is_quiet()
    ensures
        !loud(ZERO_BITS),
{
    assert(0u32 & 0x7FFF_FFFFu32 == 0u32) by (bit_vector);
}

} // verus!
