//! Conversion of captured audio to the 16 kHz that segmentation works at.
//!
//! The conversion itself is done by a windowed-sinc resampler outside this
//! library, one chunk of 1024 samples at a time. This module cuts the input
//! into those chunks and puts the converted chunks together: a full chunk's
//! output is taken whole, the output of the zero-padded last chunk only in
//! proportion to the samples that chunk really held.

use vstd::prelude::*;
use vstd::string::*;
use crate::error::{AudioError, AudioErrorView};
use crate::samples::copy_samples;

verus! {

/// The rate that segmentation and transcription work at.
pub const TARGET_RATE: u32 = 16000;

/// Input samples per resampler call.
pub const CHUNK_SIZE: usize = 1024;

/// The number of chunks in `len` samples; the last one may be partial.
pub open spec fn chunk_count(len: nat) -> nat {
    if len % (CHUNK_SIZE as nat) == 0 {
        len / (CHUNK_SIZE as nat)
    } else {
        len / (CHUNK_SIZE as nat) + 1
    }
}

/// The number of samples that chunk `index` of a buffer of `len` samples
/// holds.
pub open spec fn chunk_len(len: nat, index: int) -> nat {
    if (index + 1) * CHUNK_SIZE <= len {
        CHUNK_SIZE as nat
    } else {
        (len - index * CHUNK_SIZE) as nat
    }
}

/// Chunk `index` of `samples`, filled up with zeros to the full chunk size.
pub open spec fn chunk_input(samples: Seq<u32>, index: int) -> Seq<u32> {
    let held = samples.subrange(
        index * CHUNK_SIZE,
        index * CHUNK_SIZE + chunk_len(samples.len(), index),
    );
    held + Seq::new((CHUNK_SIZE - held.len()) as nat, |i: int| 0u32)
}

/// Every chunk of `samples`, in order, ready for the resampler.
pub open spec fn chunk_inputs(samples: Seq<u32>) -> Seq<Seq<u32>> {
    Seq::new(chunk_count(samples.len()), |i: int| chunk_input(samples, i))
}

/// The output length that `held` input samples at `from_rate` are worth.
pub open spec fn proportional_len(held: nat, from_rate: nat) -> nat {
    held * (TARGET_RATE as nat) / from_rate
}

/// How much of a chunk's output is kept: all of it for a full chunk, and
/// for a partial chunk as much as its samples are worth, if that much was
/// produced.
pub open spec fn kept_len(held: nat, from_rate: nat, produced: nat) -> nat {
    if held == CHUNK_SIZE {
        produced
    } else if proportional_len(held, from_rate) <= produced {
        proportional_len(held, from_rate)
    } else {
        produced
    }
}

/// The kept parts of the first `n` converted chunks, one after the other.
pub open spec fn assembled(len: nat, from_rate: nat, converted: Seq<Seq<u32>>, n: nat) -> Seq<u32>
    decreases n,
{
    if n == 0 {
        Seq::empty()
    } else {
        assembled(len, from_rate, converted, (n - 1) as nat) + converted[n - 1].take(
            kept_len(chunk_len(len, n - 1), from_rate, converted[n - 1].len()) as int,
        )
    }
}

/// The views of a list of chunks.
pub open spec fn chunk_views(list: Seq<Vec<u32>>) -> Seq<Seq<u32>> {
    list.map_values(|chunk: Vec<u32>| chunk@)
}

/// Whether audio at `from_rate` has to be converted at all.
pub fn needs_resampling(from_rate: u32) -> (needed: bool)
    ensures
        needed == (from_rate != TARGET_RATE),
{
    from_rate != TARGET_RATE
}

/// The number of chunks in a buffer of `len` samples.
pub fn count_chunks(len: usize) -> (n: usize)
    ensures
        n == chunk_count(len as nat),
        n > 0 ==> (n - 1) * CHUNK_SIZE < len,
{
    if len % CHUNK_SIZE == 0 {
        len / CHUNK_SIZE
    } else {
        len / CHUNK_SIZE + 1
    }
}

/// The number of samples in chunk `index` of a buffer of `len` samples.
fn held_in_chunk(len: usize, index: usize) -> (held: usize)
    requires
        index < chunk_count(len as nat),
    ensures
        held == chunk_len(len as nat, index as int),
        0 < held <= CHUNK_SIZE,
        index * CHUNK_SIZE + held <= len,
{
    let start = index * CHUNK_SIZE;
    if len - start >= CHUNK_SIZE {
        CHUNK_SIZE
    } else {
        len - start
    }
}

/// The chunks to hand to the resampler, in order: each holds `CHUNK_SIZE`
/// samples, the last one filled up with zeros. Audio that is at the target
/// rate already needs none.
pub fn resample_inputs(samples: &[u32], from_rate: u32) -> (inputs: Vec<Vec<u32>>)
    ensures
        chunk_views(inputs@) == if from_rate == TARGET_RATE {
            Seq::<Seq<u32>>::empty()
        } else {
            chunk_inputs(samples@)
        },
{
    let mut inputs: Vec<Vec<u32>> = Vec::new();
    if from_rate == TARGET_RATE {
        return inputs;
    }
    let count = count_chunks(samples.len());
    let mut index: usize = 0;
    while index < count
        invariant
            index <= count,
            count == chunk_count(samples@.len()),
            inputs@.len() == index,
            forall|j: int| 0 <= j < index ==> (#[trigger] inputs@[j])@ == chunk_input(samples@, j),
        decreases count - index,
    {
        let held = held_in_chunk(samples.len(), index);
        let start = index * CHUNK_SIZE;
        let mut chunk: Vec<u32> = Vec::new();
        let mut i: usize = 0;
        while i < held
            invariant
                i <= held,
                start + held <= samples.len(),
                chunk@ == samples@.subrange(start as int, start + i),
            decreases held - i,
        {
            chunk.push(samples[start + i]);
            i += 1;
        }
        let ghost taken = chunk@;
        while chunk.len() < CHUNK_SIZE
            invariant
                taken.len() <= chunk@.len() <= CHUNK_SIZE,
                chunk@ == taken + Seq::new((chunk@.len() - taken.len()) as nat, |i: int| 0u32),
            decreases CHUNK_SIZE - chunk.len(),
        {
            chunk.push(0);
        }
        inputs.push(chunk);
        index += 1;
    }
    inputs
}

/// How many output samples `held` input samples at `from_rate` are worth.
pub fn proportional_output_len(held: usize, from_rate: u32) -> (n: usize)
    requires
        held <= CHUNK_SIZE,
        from_rate > 0,
    ensures
        n == proportional_len(held as nat, from_rate as nat),
{
    let scaled: u64 = held as u64 * TARGET_RATE as u64;
    let n: u64 = scaled / from_rate as u64;
    n as usize
}

/// Puts the resampler's output together.
///
/// `converted` holds what the resampler made of each chunk of
/// `resample_inputs`, in order. Audio at the target rate is returned as it
/// is. A rate of zero, or a number of converted chunks other than the
/// number of chunks, is an error.
pub fn resample_to_16khz(samples: &[u32], from_rate: u32, converted: &Vec<Vec<u32>>) -> (result:
    Result<Vec<u32>, AudioError>)
    ensures
        from_rate == TARGET_RATE ==> (result matches Ok(output) && output@ == samples@),
        from_rate != TARGET_RATE ==> (result is Ok <==> from_rate > 0 && converted@.len()
            == chunk_count(samples@.len())),
        from_rate != TARGET_RATE ==> (result matches Ok(output) ==> output@ == assembled(
            samples@.len(),
            from_rate as nat,
            chunk_views(converted@),
            converted@.len(),
        )),
        result matches Err(error) ==> error@ == AudioErrorView::StreamCreationFailed(
            if from_rate == 0 {
                "Failed to create resampler: the input rate is zero"@
            } else {
                "Resampling failed: one output chunk per input chunk is needed"@
            },
        ),
{
    if from_rate == TARGET_RATE {
        return Ok(copy_samples(samples));
    }
    if from_rate == 0 {
        return Err(
            AudioError::StreamCreationFailed(
                String::from_str("Failed to create resampler: the input rate is zero"),
            ),
        );
    }
    let count = count_chunks(samples.len());
    if converted.len() != count {
        return Err(
            AudioError::StreamCreationFailed(
                String::from_str("Resampling failed: one output chunk per input chunk is needed"),
            ),
        );
    }
    let mut output: Vec<u32> = Vec::new();
    let mut index: usize = 0;
    while index < count
        invariant
            index <= count,
            from_rate > 0,
            count == chunk_count(samples@.len()),
            converted@.len() == count,
            output@ == assembled(
                samples@.len(),
                from_rate as nat,
                chunk_views(converted@),
                index as nat,
            ),
        decreases count - index,
    {
        let held = held_in_chunk(samples.len(), index);
        let produced = &converted[index];
        let keep = if held == CHUNK_SIZE {
            produced.len()
        } else {
            let worth = proportional_output_len(held, from_rate);
            if worth <= produced.len() {
                worth
            } else {
                produced.len()
            }
        };
        let ghost before = output@;
        let mut i: usize = 0;
        while i < keep
            invariant
                i <= keep <= produced.len(),
                output@ == before + produced@.take(i as int),
            decreases keep - i,
        {
            output.push(produced[i]);
            i += 1;
        }
        index += 1;
    }
    Ok(output)
}

/// The number of samples in the first `n` converted chunks.
pub open spec fn converted_len(converted: Seq<Seq<u32>>, n: nat) -> nat
    decreases n,
{
    if n == 0 {
        0
    } else {
        converted_len(converted, (n - 1) as nat) + converted[n - 1].len()
    }
}

/// The number of full chunks in `len` samples.
pub open spec fn full_chunks(len: nat) -> nat {
    len / (CHUNK_SIZE as nat)
}

/// The number of samples in the partial chunk at the end of `len` samples.
pub open spec fn tail_len(len: nat) -> nat {
    len % (CHUNK_SIZE as nat)
}

/// How long the assembled output is: it holds the whole of what the
/// resampler made of the full chunks, and of what it made of the partial
/// chunk at the end at most as much as that chunk's samples are worth.
pub proof fn lemma_assembled_len(len: nat, from_rate: nat, converted: Seq<Seq<u32>>, n: nat)
    requires
        from_rate > 0,
        n <= chunk_count(len),
        converted.len() == chunk_count(len),
    ensures
        n <= full_chunks(len) ==> assembled(len, from_rate, converted, n).len() == converted_len(
            converted,
            n,
        ),
        n > full_chunks(len) ==> converted_len(converted, full_chunks(len)) <= assembled(
            len,
            from_rate,
            converted,
            n,
        ).len() <= converted_len(converted, full_chunks(len)) + proportional_len(
            tail_len(len),
            from_rate,
        ),
    decreases n,
{
    if n > 0 {
        lemma_assembled_len(len, from_rate, converted, (n - 1) as nat);
        let produced = converted[n - 1];
        if n <= full_chunks(len) {
            assert(n * CHUNK_SIZE <= len) by (nonlinear_arith)
                requires
                    n <= len / (CHUNK_SIZE as nat),
                    CHUNK_SIZE == 1024,
            ;
            assert(chunk_len(len, n - 1) == CHUNK_SIZE);
            assert(produced.take(produced.len() as int) =~= produced);
        } else {
            assert(n - 1 == full_chunks(len));
            assert(chunk_len(len, n - 1) == tail_len(len));
        }
    }
}

/// From 48 kHz, the output has about a third of the input's length. Where
/// the resampler's output for the full chunks is within `slack` samples of
/// a third of their input, the assembled output is within `slack` and a
/// third of a chunk of a third of the whole input.
pub proof fn lemma_third_from_48k(len: nat, converted: Seq<Seq<u32>>, slack: nat)
    requires
        converted.len() == chunk_count(len),
        full_chunks(len) * CHUNK_SIZE - 3 * slack <= 3 * converted_len(
            converted,
            full_chunks(len),
        ) <= full_chunks(len) * CHUNK_SIZE + 3 * slack,
    ensures
        len - 3 * slack - (CHUNK_SIZE - 1) <= 3 * assembled(
            len,
            48000,
            converted,
            chunk_count(len),
        ).len() <= len + 3 * slack,
{
    lemma_assembled_len(len, 48000, converted, chunk_count(len));
    assert(3 * proportional_len(tail_len(len), 48000) <= tail_len(len));
}

} // verus!
