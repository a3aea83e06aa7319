//! Voice-activity segmentation.
//!
//! Audio at 16 kHz is looked at in frames of 512 samples. A classifier
//! outside this library gives each frame a speech probability; the
//! segmenter turns the run of verdicts into utterances, waiting out short
//! pauses and dropping what is too short to be speech.

use vstd::prelude::*;
use vstd::slice::slice_subrange;
use vstd::string::*;
use crate::error::{AudioError, AudioErrorView};
use crate::samples::{is_loud, is_speech, loud, speech};

verus! {

/// Samples per frame: 32 ms at 16 kHz.
pub const FRAME_SAMPLES: usize = 512;

/// Silent frames in a row that end an utterance.
pub const HANGOVER_FRAMES: usize = 10;

/// The fewest samples an utterance may have before trimming: 300 ms.
pub const MIN_SPEECH_SAMPLES: usize = 4800;

/// The segmenter: whether speech is running, for how many frames it has
/// been silent, and the samples gathered for the current utterance.
pub struct VadProcessor {
    silence_counter: usize,
    is_speaking: bool,
    current_segment: Vec<u32>,
}

/// The segmenter as a mathematical value.
pub struct VadView {
    pub speaking: bool,
    /// Silent frames seen in a row while speaking.
    pub silence_run: nat,
    /// The samples of the utterance so far.
    pub segment: Seq<u32>,
}

impl VadView {
    /// The state between utterances.
    pub open spec fn silent() -> VadView {
        VadView { speaking: false, silence_run: 0, segment: Seq::empty() }
    }

    /// Between utterances nothing is gathered and nothing counted, and the
    /// count of silent frames stays below the hangover.
    pub open spec fn well_formed(self) -> bool {
        &&& self.silence_run < HANGOVER_FRAMES
        &&& !self.speaking ==> self == VadView::silent()
    }
}

impl View for VadProcessor {
    type V = VadView;

    closed spec fn view(&self) -> VadView {
        VadView {
            speaking: self.is_speaking,
            silence_run: self.silence_counter as nat,
            segment: self.current_segment@,
        }
    }
}

/// One frame: its samples, unpadded, and the classifier's verdict.
pub struct Frame {
    pub samples: Seq<u32>,
    pub speech: bool,
}

/// How many samples at the start of `s` are silence.
pub open spec fn leading_quiet(s: Seq<u32>) -> nat
    decreases s.len(),
{
    if s.len() == 0 || loud(s[0]) {
        0
    } else {
        1 + leading_quiet(s.skip(1))
    }
}

/// How many samples at the end of `s` are silence.
pub open spec fn trailing_quiet(s: Seq<u32>) -> nat
    decreases s.len(),
{
    if s.len() == 0 || loud(s.last()) {
        0
    } else {
        1 + trailing_quiet(s.drop_last())
    }
}

/// `s` without the silence at its start and at its end. A segment that is
/// silence throughout trims to nothing.
pub open spec fn trimmed(s: Seq<u32>) -> Seq<u32> {
    if leading_quiet(s) >= s.len() {
        Seq::empty()
    } else {
        s.subrange(leading_quiet(s) as int, s.len() - trailing_quiet(s))
    }
}

/// What a finished utterance is worth: its trimmed samples, if it was long
/// enough before trimming and something is left after.
pub open spec fn finalized(raw: Seq<u32>) -> Option<Seq<u32>> {
    if raw.len() >= MIN_SPEECH_SAMPLES && trimmed(raw).len() > 0 {
        Some(trimmed(raw))
    } else {
        None
    }
}

/// One frame's effect on the segmenter, and the utterance that the frame
/// completes, if it completes one.
pub open spec fn frame_step(state: VadView, frame: Frame) -> (VadView, Option<Seq<u32>>) {
    if frame.speech {
        (
            VadView { speaking: true, silence_run: 0, segment: state.segment + frame.samples },
            None,
        )
    } else if state.speaking {
        let segment = state.segment + frame.samples;
        if state.silence_run + 1 >= HANGOVER_FRAMES {
            (VadView::silent(), finalized(segment))
        } else {
            (VadView { speaking: true, silence_run: state.silence_run + 1, segment }, None)
        }
    } else {
        (VadView { silence_run: 0, ..state }, None)
    }
}

/// A list of zero or one segment.
pub open spec fn listed(segment: Option<Seq<u32>>) -> Seq<Seq<u32>> {
    match segment {
        Some(s) => seq![s],
        None => Seq::empty(),
    }
}

/// The effect of a run of frames, and the utterances completed on the way.
pub open spec fn run_frames(state: VadView, frames: Seq<Frame>) -> (VadView, Seq<Seq<u32>>)
    decreases frames.len(),
{
    if frames.len() == 0 {
        (state, Seq::empty())
    } else {
        let (mid, segments) = run_frames(state, frames.drop_last());
        let (next, segment) = frame_step(mid, frames.last());
        (next, segments + listed(segment))
    }
}

/// The number of frames in `len` samples; the last one may be partial.
pub open spec fn frame_count(len: nat) -> nat {
    if len % (FRAME_SAMPLES as nat) == 0 {
        len / (FRAME_SAMPLES as nat)
    } else {
        len / (FRAME_SAMPLES as nat) + 1
    }
}

/// The samples of frame `index`.
pub open spec fn frame_samples(samples: Seq<u32>, index: int) -> Seq<u32> {
    samples.subrange(
        index * FRAME_SAMPLES,
        if (index + 1) * FRAME_SAMPLES <= samples.len() {
            (index + 1) * FRAME_SAMPLES
        } else {
            samples.len() as int
        },
    )
}

/// A frame filled up with zeros to the full frame size.
pub open spec fn padded(chunk: Seq<u32>) -> Seq<u32> {
    if chunk.len() >= FRAME_SAMPLES {
        chunk
    } else {
        chunk + Seq::new((FRAME_SAMPLES - chunk.len()) as nat, |i: int| 0u32)
    }
}

/// The frames of a buffer, each with the verdict that its probability gives.
pub open spec fn framed(samples: Seq<u32>, probabilities: Seq<u32>) -> Seq<Frame> {
    Seq::new(
        frame_count(samples.len()),
        |i: int| Frame { samples: frame_samples(samples, i), speech: speech(probabilities[i]) },
    )
}

/// The segments of a list, as sequences.
pub open spec fn segment_views(list: Seq<Vec<u32>>) -> Seq<Seq<u32>> {
    list.map_values(|segment: Vec<u32>| segment@)
}

/// The view of an optional segment.
pub open spec fn segment_view(segment: Option<Vec<u32>>) -> Option<Seq<u32>> {
    match segment {
        Some(s) => Some(s@),
        None => None,
    }
}

/// The number of frames in a buffer of `len` samples.
pub fn count_frames(len: usize) -> (n: usize)
    ensures
        n == frame_count(len as nat),
        n * FRAME_SAMPLES >= len,
        n > 0 ==> (n - 1) * FRAME_SAMPLES < len,
{
    if len % FRAME_SAMPLES == 0 {
        len / FRAME_SAMPLES
    } else {
        len / FRAME_SAMPLES + 1
    }
}

/// Where frame `index` of a buffer of `len` samples starts and ends.
fn frame_bounds(len: usize, index: usize) -> (bounds: (usize, usize))
    requires
        index < frame_count(len as nat),
    ensures
        bounds.0 == index * FRAME_SAMPLES,
        bounds.0 < bounds.1 <= len,
        bounds.1 == if (index + 1) * FRAME_SAMPLES <= len {
            (index + 1) * FRAME_SAMPLES
        } else {
            len as int
        },
        bounds.1 - bounds.0 <= FRAME_SAMPLES,
{
    let start = index * FRAME_SAMPLES;
    let end = if len - start >= FRAME_SAMPLES {
        start + FRAME_SAMPLES
    } else {
        len
    };
    (start, end)
}

/// Frame `index` of `samples`, filled up with zeros to the full frame size:
/// what the classifier is shown. There is none past the last frame.
pub fn padded_frame(samples: &[u32], index: usize) -> (frame: Option<Vec<u32>>)
    ensures
        frame is Some <==> index < frame_count(samples@.len()),
        frame matches Some(f) ==> f@ == padded(frame_samples(samples@, index as int)) && f@.len()
            == FRAME_SAMPLES,
{
    if index >= count_frames(samples.len()) {
        return None;
    }
    let (start, end) = frame_bounds(samples.len(), index);
    let mut frame: Vec<u32> = Vec::new();
    let mut i: usize = start;
    while i < end
        invariant
            start <= i <= end <= samples.len(),
            frame@ == samples@.subrange(start as int, i as int),
        decreases end - i,
    {
        frame.push(samples[i]);
        i += 1;
    }
    let ghost chunk = frame@;
    while frame.len() < FRAME_SAMPLES
        invariant
            chunk.len() <= frame@.len() <= FRAME_SAMPLES,
            frame@ == chunk + Seq::new((frame@.len() - chunk.len()) as nat, |i: int| 0u32),
        decreases FRAME_SAMPLES - frame.len(),
    {
        frame.push(0);
    }
    Some(frame)
}

/// Trims the silence from both ends of a segment.
pub fn trim_silence(segment: &[u32]) -> (kept: Vec<u32>)
    ensures
        kept@ == trimmed(segment@),
{
    let mut start: usize = 0;
    while start < segment.len() && !is_loud(segment[start])
        invariant
            start <= segment.len(),
            forall|j: int| 0 <= j < start ==> !loud(segment@[j]),
        decreases segment.len() - start,
    {
        start += 1;
    }
    proof {
        lemma_leading_quiet(segment@, start as int);
    }
    if start == segment.len() {
        return Vec::new();
    }
    let mut end: usize = segment.len();
    while !is_loud(segment[end - 1])
        invariant
            start < end <= segment.len(),
            loud(segment@[start as int]),
            forall|j: int| end <= j < segment.len() ==> !loud(segment@[j]),
        decreases end,
    {
        end -= 1;
    }
    proof {
        lemma_trailing_quiet(segment@, end as int);
    }
    let mut kept: Vec<u32> = Vec::new();
    let mut i: usize = start;
    while i < end
        invariant
            start <= i <= end <= segment.len(),
            kept@ == segment@.subrange(start as int, i as int),
        decreases end - i,
    {
        kept.push(segment[i]);
        i += 1;
    }
    kept
}

/// The silence at the start ends at the first loud sample.
pub proof fn lemma_leading_quiet(s: Seq<u32>, first: int)
    requires
        0 <= first <= s.len(),
        forall|j: int| 0 <= j < first ==> !loud(s[j]),
        first < s.len() ==> loud(s[first]),
    ensures
        leading_quiet(s) == first,
    decreases s.len(),
{
    if first > 0 {
        lemma_leading_quiet(s.skip(1), first - 1);
    }
}

/// The silence at the end starts after the last loud sample.
pub proof fn lemma_trailing_quiet(s: Seq<u32>, end: int)
    requires
        0 <= end <= s.len(),
        forall|j: int| end <= j < s.len() ==> !loud(s[j]),
        end > 0 ==> loud(s[end - 1]),
    ensures
        trailing_quiet(s) == s.len() - end,
    decreases s.len(),
{
    if end < s.len() {
        lemma_trailing_quiet(s.drop_last(), end);
    }
}

impl VadProcessor {
    /// A segmenter between utterances.
    pub fn new() -> (vad: Self)
        ensures
            vad@ == VadView::silent(),
    {
        VadProcessor { silence_counter: 0, is_speaking: false, current_segment: Vec::new() }
    }

    /// Silent frames in a row that end an utterance.
    pub fn hangover_frames(&self) -> (n: usize)
        ensures
            n == HANGOVER_FRAMES,
    {
        HANGOVER_FRAMES
    }

    /// The fewest samples an utterance may have before trimming.
    pub fn min_speech_samples(&self) -> (n: usize)
        ensures
            n == MIN_SPEECH_SAMPLES,
    {
        MIN_SPEECH_SAMPLES
    }

    /// Whether an utterance is running.
    pub fn is_speaking(&self) -> (speaking: bool)
        ensures
            speaking == self@.speaking,
    {
        self.is_speaking
    }

    /// Takes in one frame with the probability that the classifier gave it,
    /// and returns the utterance that the frame completes, if any.
    pub fn push_frame(&mut self, samples: &[u32], probability: u32) -> (segment: Option<Vec<u32>>)
        requires
            old(self)@.well_formed(),
        ensures
            final(self)@.well_formed(),
            final(self)@ == frame_step(
                old(self)@,
                Frame { samples: samples@, speech: speech(probability) },
            ).0,
            segment_view(segment) == frame_step(
                old(self)@,
                Frame { samples: samples@, speech: speech(probability) },
            ).1,
    {
        let is_speech = is_speech(probability);
        if is_speech {
            self.is_speaking = true;
            self.silence_counter = 0;
            append_samples(&mut self.current_segment, samples);
            None
        } else if self.is_speaking {
            self.silence_counter = self.silence_counter + 1;
            append_samples(&mut self.current_segment, samples);
            if self.silence_counter >= HANGOVER_FRAMES {
                self.is_speaking = false;
                let mut segment: Option<Vec<u32>> = None;
                if self.current_segment.len() >= MIN_SPEECH_SAMPLES {
                    let kept = trim_silence(self.current_segment.as_slice());
                    if kept.len() > 0 {
                        segment = Some(kept);
                    }
                }
                self.current_segment.clear();
                self.silence_counter = 0;
                segment
            } else {
                None
            }
        } else {
            self.silence_counter = 0;
            None
        }
    }

    /// Segments a buffer. `probabilities` holds the classifier's speech
    /// probability for each frame of `samples`, in order.
    ///
    /// Fails, leaving the segmenter as it was, when the number of
    /// probabilities is not the number of frames.
    pub fn process_audio(&mut self, samples: &[u32], probabilities: &[u32]) -> (result: Result<
        Vec<Vec<u32>>,
        AudioError,
    >)
        requires
            old(self)@.well_formed(),
        ensures
            final(self)@.well_formed(),
            result is Ok <==> probabilities@.len() == frame_count(samples@.len()),
            result matches Ok(segments) ==> final(self)@ == run_frames(
                old(self)@,
                framed(samples@, probabilities@),
            ).0 && segment_views(segments@) == run_frames(
                old(self)@,
                framed(samples@, probabilities@),
            ).1,
            result matches Err(error) ==> final(self)@ == old(self)@ && error@
                == AudioErrorView::VadProcessingFailed(
                "one probability per frame is needed"@,
            ),
    {
        let frames = count_frames(samples.len());
        if probabilities.len() != frames {
            return Err(
                AudioError::VadProcessingFailed(
                    String::from_str("one probability per frame is needed"),
                ),
            );
        }
        let ghost all = framed(samples@, probabilities@);
        let mut segments: Vec<Vec<u32>> = Vec::new();
        let mut index: usize = 0;
        while index < frames
            invariant
                index <= frames,
                frames == frame_count(samples@.len()),
                probabilities@.len() == frames,
                all == framed(samples@, probabilities@),
                self@.well_formed(),
                self@ == run_frames(old(self)@, all.take(index as int)).0,
                segment_views(segments@) == run_frames(old(self)@, all.take(index as int)).1,
            decreases frames - index,
        {
            let (start, end) = frame_bounds(samples.len(), index);
            let chunk = slice_subrange(samples, start, end);
            assert(all.take(index + 1).drop_last() == all.take(index as int));
            if let Some(segment) = self.push_frame(chunk, probabilities[index]) {
                segments.push(segment);
            }
            index += 1;
        }
        assert(all.take(frames as int) == all);
        Ok(segments)
    }

    /// Ends the stream. An utterance still running is returned, trimmed, if
    /// it is long enough; otherwise there is nothing to return.
    pub fn finish(self) -> (segment: Option<Vec<u32>>)
        ensures
            segment_view(segment) == unfinished(self@),
    {
        if self.is_speaking && self.current_segment.len() >= MIN_SPEECH_SAMPLES {
            Some(trim_silence(self.current_segment.as_slice()))
        } else {
            None
        }
    }
}

/// The utterances of a whole recording: those completed on the way, and
/// the one that the recording ends in, if it is long enough.
pub open spec fn utterances(samples: Seq<u32>, probabilities: Seq<u32>) -> Seq<Seq<u32>> {
    let (state, segments) = run_frames(VadView::silent(), framed(samples, probabilities));
    segments + listed(unfinished(state))
}

/// Segments a whole recording with a fresh segmenter.
///
/// Fails when the number of probabilities is not the number of frames.
pub fn collect_segments(samples: &[u32], probabilities: &[u32]) -> (result: Result<
    Vec<Vec<u32>>,
    AudioError,
>)
    ensures
        result is Ok <==> probabilities@.len() == frame_count(samples@.len()),
        result matches Ok(segments) ==> segment_views(segments@) == utterances(
            samples@,
            probabilities@,
        ),
        result matches Err(error) ==> error@ == AudioErrorView::VadProcessingFailed(
            "one probability per frame is needed"@,
        ),
{
    let mut vad = VadProcessor::new();
    match vad.process_audio(samples, probabilities) {
        Ok(mut segments) => {
            if let Some(last) = vad.finish() {
                segments.push(last);
            }
            Ok(segments)
        },
        Err(error) => Err(error),
    }
}

/// What is left to hand out when the stream ends.
pub open spec fn unfinished(state: VadView) -> Option<Seq<u32>> {
    if state.speaking && state.segment.len() >= MIN_SPEECH_SAMPLES {
        Some(trimmed(state.segment))
    } else {
        None
    }
}

/// Appends `samples` to `segment`.
fn append_samples(segment: &mut Vec<u32>, samples: &[u32])
    ensures
        final(segment)@ == old(segment)@ + samples@,
{
    segment.extend_from_slice(samples);
}

} // verus!
