//! Laws of the segmenter over whole runs of frames.

use vstd::prelude::*;
use crate::samples::{ZERO_BITS, lemma_zero_is_quiet, loud};
use crate::vad::{
    Frame,
    HANGOVER_FRAMES,
    MIN_SPEECH_SAMPLES,
    VadView,
    finalized,
    frame_samples,
    frame_step,
    framed,
    leading_quiet,
    listed,
    run_frames,
    trailing_quiet,
    trimmed,
    unfinished,
};

verus! {

/// No sample of `s` is louder than the silence threshold.
pub open spec fn all_quiet(s: Seq<u32>) -> bool {
    forall|i: int| 0 <= i < s.len() ==> !loud(#[trigger] s[i])
}

/// No frame of `frames` was classified as speech.
pub open spec fn none_speech(frames: Seq<Frame>) -> bool {
    forall|i: int| 0 <= i < frames.len() ==> !(#[trigger] frames[i]).speech
}

/// Every frame of `frames` was classified as speech.
pub open spec fn all_speech(frames: Seq<Frame>) -> bool {
    forall|i: int| 0 <= i < frames.len() ==> (#[trigger] frames[i]).speech
}

/// The samples of `frames`, one frame after the other.
pub open spec fn samples_of(frames: Seq<Frame>) -> Seq<u32>
    decreases frames.len(),
{
    if frames.len() == 0 {
        Seq::empty()
    } else {
        samples_of(frames.drop_last()) + frames.last().samples
    }
}

/// The silence at either end never reaches past the segment.
pub proof fn lemma_quiet_bounds(s: Seq<u32>)
    ensures
        leading_quiet(s) <= s.len(),
        trailing_quiet(s) <= s.len(),
        leading_quiet(s) < s.len() ==> loud(s[leading_quiet(s) as int]),
        trailing_quiet(s) < s.len() ==> loud(s[s.len() - trailing_quiet(s) - 1]),
        leading_quiet(s) < s.len() ==> leading_quiet(s) + trailing_quiet(s) < s.len(),
        all_quiet(s) <==> leading_quiet(s) == s.len(),
    decreases s.len(),
{
    if s.len() > 0 {
        lemma_quiet_bounds(s.skip(1));
        lemma_quiet_bounds(s.drop_last());
        if !loud(s[0]) {
            let rest = s.skip(1);
            if all_quiet(s) {
                assert forall|i: int| 0 <= i < rest.len() implies !loud(#[trigger] rest[i]) by {}
            }
            if leading_quiet(s) == s.len() {
                assert forall|i: int| 0 <= i < s.len() implies !loud(#[trigger] s[i]) by {
                    if i > 0 {
                        assert(rest[i - 1] == s[i]);
                    }
                }
            }
        }
        if leading_quiet(s) < s.len() {
            let first = leading_quiet(s) as int;
            if trailing_quiet(s) >= s.len() - first {
                lemma_trailing_all_quiet(s, s.len() - trailing_quiet(s));
            }
        }
    }
}

/// The samples counted as trailing silence are silence.
proof fn lemma_trailing_all_quiet(s: Seq<u32>, from: int)
    requires
        from == s.len() - trailing_quiet(s),
    ensures
        from >= 0,
        forall|i: int| from <= i < s.len() ==> !loud(#[trigger] s[i]),
    decreases s.len(),
{
    if s.len() > 0 && !loud(s.last()) {
        lemma_trailing_all_quiet(s.drop_last(), from);
        assert forall|i: int| from <= i < s.len() implies !loud(#[trigger] s[i]) by {
            if i < s.len() - 1 {
                assert(s.drop_last()[i] == s[i]);
            }
        }
    }
}

/// A trimmed segment, where anything is left of it, begins and ends with a
/// sample louder than the silence threshold; and something is left exactly
/// when the segment holds such a sample.
pub proof fn lemma_trimmed_ends_loud(s: Seq<u32>)
    ensures
        trimmed(s).len() > 0 <==> !all_quiet(s),
        trimmed(s).len() > 0 ==> loud(trimmed(s).first()) && loud(trimmed(s).last()),
        trimmed(s).len() <= s.len(),
{
    lemma_quiet_bounds(s);
}

/// A run over two lists of frames in a row is the run over the second from
/// where the run over the first ended.
pub proof fn lemma_run_frames_append(state: VadView, first: Seq<Frame>, second: Seq<Frame>)
    ensures
        run_frames(state, first + second).0 == run_frames(run_frames(state, first).0, second).0,
        run_frames(state, first + second).1 == run_frames(state, first).1 + run_frames(
            run_frames(state, first).0,
            second,
        ).1,
    decreases second.len(),
{
    if second.len() > 0 {
        lemma_run_frames_append(state, first, second.drop_last());
        assert((first + second).drop_last() =~= first + second.drop_last());
    }
}

/// The samples of two lists of frames in a row.
pub proof fn lemma_samples_of_append(first: Seq<Frame>, second: Seq<Frame>)
    ensures
        samples_of(first + second) == samples_of(first) + samples_of(second),
    decreases second.len(),
{
    if second.len() > 0 {
        lemma_samples_of_append(first, second.drop_last());
        assert((first + second).drop_last() =~= first + second.drop_last());
    }
}

/// Between utterances, frames without speech change nothing and give
/// nothing.
pub proof fn lemma_silence_stays_silent(frames: Seq<Frame>)
    requires
        none_speech(frames),
    ensures
        run_frames(VadView::silent(), frames) == (VadView::silent(), Seq::<Seq<u32>>::empty()),
    decreases frames.len(),
{
    if frames.len() > 0 {
        lemma_silence_stays_silent(frames.drop_last());
    }
}

/// Frames of speech are gathered, whatever the state was, and give nothing
/// yet.
pub proof fn lemma_speech_is_gathered(state: VadView, frames: Seq<Frame>)
    requires
        all_speech(frames),
        frames.len() > 0,
    ensures
        run_frames(state, frames) == (
            VadView {
                speaking: true,
                silence_run: 0,
                segment: state.segment + samples_of(frames),
            },
            Seq::<Seq<u32>>::empty(),
        ),
    decreases frames.len(),
{
    let front = frames.drop_last();
    assert(frames[frames.len() - 1].speech);
    if front.len() > 0 {
        assert forall|i: int| 0 <= i < front.len() implies (#[trigger] front[i]).speech by {}
        lemma_speech_is_gathered(state, front);
        assert(state.segment + samples_of(front) + frames.last().samples =~= state.segment + (
            samples_of(front) + frames.last().samples));
    } else {
        assert(run_frames(state, front) == (state, Seq::<Seq<u32>>::empty()));
    }
}

/// While speaking, frames without speech are gathered and counted. Fewer
/// than the hangover give nothing; the one that completes the hangover ends
/// the utterance.
pub proof fn lemma_pause_is_waited_out(state: VadView, frames: Seq<Frame>)
    requires
        state.speaking,
        none_speech(frames),
        state.silence_run + frames.len() <= HANGOVER_FRAMES,
    ensures
        state.silence_run + frames.len() < HANGOVER_FRAMES ==> run_frames(state, frames) == (
            VadView {
                speaking: true,
                silence_run: state.silence_run + frames.len(),
                segment: state.segment + samples_of(frames),
            },
            Seq::<Seq<u32>>::empty(),
        ),
        state.silence_run + frames.len() == HANGOVER_FRAMES && frames.len() > 0 ==> run_frames(
            state,
            frames,
        ) == (VadView::silent(), listed(finalized(state.segment + samples_of(frames)))),
    decreases frames.len(),
{
    if frames.len() > 0 {
        let front = frames.drop_last();
        lemma_pause_is_waited_out(state, front);
        assert(state.segment + samples_of(front) + frames.last().samples =~= state.segment + (
            samples_of(front) + frames.last().samples));
    }
}

/// An utterance framed by silence: after any number of silent frames, a
/// run of speech frames followed by a full hangover of silent frames, and
/// any number of silent frames after that, gives at most one segment: the
/// trimmed samples of the speech and hangover frames, if these were enough
/// samples and any of them is loud. The segmenter ends between utterances.
pub proof fn lemma_framed_utterance(
    lead: Seq<Frame>,
    spoken: Seq<Frame>,
    pause: Seq<Frame>,
    rest: Seq<Frame>,
)
    requires
        none_speech(lead),
        all_speech(spoken),
        spoken.len() > 0,
        none_speech(pause),
        pause.len() == HANGOVER_FRAMES,
        none_speech(rest),
    ensures
        run_frames(VadView::silent(), lead + spoken + pause + rest) == (
            VadView::silent(),
            listed(finalized(samples_of(spoken + pause))),
        ),
{
    let silent = VadView::silent();
    lemma_silence_stays_silent(lead);
    lemma_speech_is_gathered(silent, spoken);
    let speaking = run_frames(silent, spoken).0;
    lemma_pause_is_waited_out(speaking, pause);
    lemma_silence_stays_silent(rest);
    lemma_samples_of_append(spoken, pause);
    lemma_run_frames_append(silent, lead, spoken);
    lemma_run_frames_append(silent, lead + spoken, pause);
    lemma_run_frames_append(silent, lead + spoken + pause, rest);
}

/// An utterance that the stream ends in: after speech frames and fewer
/// silent frames than the hangover, nothing has been given yet, and what is
/// left to hand out at the end is one segment if the frames held enough
/// samples, and none otherwise.
pub proof fn lemma_unterminated_utterance(lead: Seq<Frame>, spoken: Seq<Frame>, pause: Seq<Frame>)
    requires
        none_speech(lead),
        all_speech(spoken),
        spoken.len() > 0,
        none_speech(pause),
        pause.len() < HANGOVER_FRAMES,
    ensures
        run_frames(VadView::silent(), lead + spoken + pause).1 == Seq::<Seq<u32>>::empty(),
        unfinished(run_frames(VadView::silent(), lead + spoken + pause).0) == if samples_of(
            spoken + pause,
        ).len() >= MIN_SPEECH_SAMPLES {
            Some(trimmed(samples_of(spoken + pause)))
        } else {
            None
        },
{
    let silent = VadView::silent();
    lemma_silence_stays_silent(lead);
    lemma_speech_is_gathered(silent, spoken);
    let speaking = run_frames(silent, spoken).0;
    lemma_pause_is_waited_out(speaking, pause);
    lemma_samples_of_append(spoken, pause);
    lemma_run_frames_append(silent, lead, spoken);
    lemma_run_frames_append(silent, lead + spoken, pause);
}

/// A frame completes a segment only if enough samples had been gathered
/// before trimming, and what it gives is never empty.
pub proof fn lemma_short_is_never_emitted(state: VadView, frame: Frame)
    ensures
        frame_step(state, frame).1 matches Some(segment) ==> state.segment.len()
            + frame.samples.len() >= MIN_SPEECH_SAMPLES && segment.len() > 0 && loud(
            segment.first(),
        ) && loud(segment.last()),
{
    lemma_trimmed_ends_loud(state.segment + frame.samples);
}

/// Silence in, nothing out: when neither the samples gathered so far nor
/// those of the frames hold a loud sample, the run gives no segment,
/// whatever the classifier said.
pub proof fn lemma_quiet_frames_give_nothing(state: VadView, frames: Seq<Frame>)
    requires
        all_quiet(state.segment),
        forall|i: int| 0 <= i < frames.len() ==> all_quiet((#[trigger] frames[i]).samples),
    ensures
        run_frames(state, frames).1 == Seq::<Seq<u32>>::empty(),
        all_quiet(run_frames(state, frames).0.segment),
    decreases frames.len(),
{
    if frames.len() > 0 {
        let front = frames.drop_last();
        lemma_quiet_frames_give_nothing(state, front);
        let mid = run_frames(state, front).0;
        let frame = frames.last();
        let gathered = mid.segment + frame.samples;
        assert(all_quiet(gathered)) by {
            assert forall|i: int| 0 <= i < gathered.len() implies !loud(#[trigger] gathered[i]) by {}
        }
        lemma_trimmed_ends_loud(gathered);
    }
}

/// A buffer of silence gives no segment, whatever probabilities come with
/// it.
pub proof fn lemma_silence_gives_nothing(samples: Seq<u32>, probabilities: Seq<u32>)
    requires
        all_quiet(samples),
    ensures
        run_frames(VadView::silent(), framed(samples, probabilities)).1 == Seq::<
            Seq<u32>,
        >::empty(),
{
    let frames = framed(samples, probabilities);
    assert forall|i: int| 0 <= i < frames.len() implies all_quiet(
        (#[trigger] frames[i]).samples,
    ) by {
        let part = frame_samples(samples, i);
        assert forall|j: int| 0 <= j < part.len() implies !loud(#[trigger] part[j]) by {}
    }
    lemma_quiet_frames_give_nothing(VadView::silent(), frames);
}

/// A buffer of zeros gives no segment, whatever probabilities come with it.
pub proof fn lemma_zeros_give_nothing(samples: Seq<u32>, probabilities: Seq<u32>)
    requires
        forall|i: int| 0 <= i < samples.len() ==> samples[i] == ZERO_BITS,
    ensures
        run_frames(VadView::silent(), framed(samples, probabilities)).1 == Seq::<
            Seq<u32>,
        >::empty(),
{
    lemma_zero_is_quiet();
    lemma_silence_gives_nothing(samples, probabilities);
}

} // verus!
