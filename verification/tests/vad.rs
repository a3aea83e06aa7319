use echoes::samples::{is_loud, is_speech};
use echoes::vad::{count_frames, padded_frame, trim_silence};
use echoes::{collect_segments, AudioError, VadProcessor};

const SPEECH: f32 = 0.9;
const SILENCE: f32 = 0.1;

fn bits(samples: &[f32]) -> Vec<u32> {
    samples.iter().map(|s| s.to_bits()).collect()
}

fn floats(samples: &[u32]) -> Vec<f32> {
    samples.iter().map(|b| f32::from_bits(*b)).collect()
}

/// `frames` full frames of a tone, quiet in the first and last ten samples
/// of the whole.
fn tone(frames: usize) -> Vec<f32> {
    let mut samples = vec![0.25f32; frames * 512];
    let len = samples.len();
    for i in 0..10 {
        samples[i] = 0.001;
        samples[len - 1 - i] = -0.002;
    }
    samples
}

#[test]
fn test_vad_initialization() {
    let vad = VadProcessor::new();
    assert_eq!(vad.hangover_frames(), 10);
    assert_eq!(vad.min_speech_samples(), 4800);
}

#[test]
fn vad_test_vad_initialization() {
    let vad = VadProcessor::new();
    assert_eq!(vad.hangover_frames(), 10);
    assert_eq!(vad.min_speech_samples(), 4800);
    assert!(!vad.is_speaking());
}

#[test]
fn test_silence_detection() {
    let mut vad = VadProcessor::new();
    let silence = vec![0.0f32; 16000];
    let verdicts = vec![0.0f32; 32];
    let segments = vad.process_audio(&bits(&silence), &bits(&verdicts)).unwrap();
    assert!(segments.is_empty(), "Should not detect speech in silence");
}

#[test]
fn vad_test_silence_detection() {
    // Silence gives nothing even where the classifier calls it speech.
    let mut vad = VadProcessor::new();
    let silence = vec![0.0f32; 16000];
    let verdicts = vec![1.0f32; 32];
    let segments = vad.process_audio(&bits(&silence), &bits(&verdicts)).unwrap();
    assert!(segments.is_empty(), "Should not detect speech in silence");
}

#[test]
fn thresholds_are_exact() {
    assert!(!is_loud(0.01f32.to_bits()));
    assert!(!is_loud((-0.01f32).to_bits()));
    assert!(is_loud(0.010000001f32.to_bits()));
    assert!(is_loud((-0.5f32).to_bits()));
    assert!(is_loud(f32::INFINITY.to_bits()));
    assert!(is_loud(f32::NEG_INFINITY.to_bits()));
    assert!(!is_loud(f32::NAN.to_bits()));
    assert!(!is_loud(0.0f32.to_bits()));
    assert!(!is_loud((-0.0f32).to_bits()));
    assert!(!is_loud(f32::MIN_POSITIVE.to_bits()));

    assert!(!is_speech(0.5f32.to_bits()));
    assert!(is_speech(0.50000006f32.to_bits()));
    assert!(is_speech(1.0f32.to_bits()));
    assert!(!is_speech(0.49f32.to_bits()));
    assert!(!is_speech(0.0f32.to_bits()));
    assert!(!is_speech((-0.9f32).to_bits()));
    assert!(!is_speech(f32::NAN.to_bits()));
}

#[test]
fn thresholds_agree_with_float_comparison() {
    let mut value = -2.0f32;
    while value < 2.0 {
        assert_eq!(is_loud(value.to_bits()), value.abs() > 0.01, "{value}");
        assert_eq!(is_speech(value.to_bits()), value > 0.5, "{value}");
        value += 0.0007;
    }
}

#[test]
fn frames_of_a_buffer() {
    assert_eq!(count_frames(0), 0);
    assert_eq!(count_frames(1), 1);
    assert_eq!(count_frames(512), 1);
    assert_eq!(count_frames(513), 2);
    assert_eq!(count_frames(16000), 32);
}

#[test]
fn last_frame_is_padded_with_zeros() {
    let samples: Vec<u32> = (1..=600u32).collect();
    let first = padded_frame(&samples, 0).unwrap();
    assert_eq!(first, (1..=512u32).collect::<Vec<u32>>());
    let last = padded_frame(&samples, 1).unwrap();
    assert_eq!(last.len(), 512);
    assert_eq!(&last[..88], &(513..=600u32).collect::<Vec<u32>>()[..]);
    assert!(last[88..].iter().all(|b| *b == 0));
    assert_eq!(padded_frame(&samples, 2), None);
    assert_eq!(padded_frame(&[], 0), None);
}

#[test]
fn trim_removes_silence_at_both_ends() {
    let trimmed = trim_silence(&bits(&[0.0, 0.005, -0.01, 0.5, 0.0, -0.3, 0.009, 0.0]));
    assert_eq!(floats(&trimmed), vec![0.5, 0.0, -0.3]);
    assert_eq!(floats(&trim_silence(&bits(&[0.2]))), vec![0.2]);
    assert_eq!(floats(&trim_silence(&bits(&[0.2, 0.0, 0.0]))), vec![0.2]);
    assert_eq!(floats(&trim_silence(&bits(&[0.0, 0.0, -0.2]))), vec![-0.2]);
}

#[test]
fn trim_of_silence_is_empty() {
    assert!(trim_silence(&bits(&[0.0, 0.005, -0.01, 0.0])).is_empty());
    assert!(trim_silence(&[]).is_empty());
}

#[test]
fn speech_framed_by_silence_gives_one_trimmed_segment() {
    // Twelve silent frames, ten frames of speech, twelve silent frames.
    let mut samples = vec![0.0f32; 12 * 512];
    samples.extend(tone(10));
    samples.extend(vec![0.0f32; 12 * 512]);
    let mut verdicts = vec![SILENCE; 12];
    verdicts.extend(vec![SPEECH; 10]);
    verdicts.extend(vec![SILENCE; 12]);

    let mut vad = VadProcessor::new();
    let segments = vad.process_audio(&bits(&samples), &bits(&verdicts)).unwrap();
    assert_eq!(segments.len(), 1);
    let segment = floats(&segments[0]);
    assert_eq!(segment.len(), 10 * 512 - 20);
    assert!(segment.first().unwrap().abs() > 0.01);
    assert!(segment.last().unwrap().abs() > 0.01);
    assert_eq!(segment, vec![0.25f32; 10 * 512 - 20]);
    assert!(!vad.is_speaking());
    assert_eq!(vad.finish(), None);
}

#[test]
fn pause_shorter_than_hangover_does_not_split() {
    let mut samples = tone(3);
    samples.extend(vec![0.0f32; 9 * 512]);
    samples.extend(tone(2));
    samples.extend(vec![0.0f32; 10 * 512]);
    let mut verdicts = vec![SPEECH; 3];
    verdicts.extend(vec![SILENCE; 9]);
    verdicts.extend(vec![SPEECH; 2]);
    verdicts.extend(vec![SILENCE; 10]);

    let mut vad = VadProcessor::new();
    let segments = vad.process_audio(&bits(&samples), &bits(&verdicts)).unwrap();
    assert_eq!(segments.len(), 1);
    assert_eq!(segments[0].len(), 14 * 512 - 20);
}

#[test]
fn hangover_is_exactly_ten_frames() {
    let mut samples = tone(4);
    samples.extend(vec![0.0f32; 9 * 512]);
    let mut verdicts = vec![SPEECH; 4];
    verdicts.extend(vec![SILENCE; 9]);
    let mut vad = VadProcessor::new();
    assert!(vad.process_audio(&bits(&samples), &bits(&verdicts)).unwrap().is_empty());
    assert!(vad.is_speaking());
    // The tenth silent frame ends the utterance.
    let segments = vad.process_audio(&bits(&vec![0.0f32; 512]), &bits(&[SILENCE])).unwrap();
    assert_eq!(segments.len(), 1);
    assert_eq!(segments[0].len(), 4 * 512 - 20);
    assert!(!vad.is_speaking());
}

#[test]
fn short_segment_is_never_emitted() {
    // One frame of 100 loud samples and ten silent frames of 400 samples:
    // 4100 samples, fewer than the 4800 an utterance needs.
    let mut vad = VadProcessor::new();
    assert_eq!(vad.push_frame(&bits(&vec![0.3f32; 100]), SPEECH.to_bits()), None);
    for _ in 0..10 {
        assert_eq!(vad.push_frame(&bits(&vec![0.0f32; 400]), SILENCE.to_bits()), None);
    }
    assert!(!vad.is_speaking());
    assert_eq!(vad.finish(), None);
}

#[test]
fn minimum_duration_is_4800_samples_before_trimming() {
    // 4800 samples in all: just enough.
    let mut vad = VadProcessor::new();
    assert_eq!(vad.push_frame(&bits(&vec![0.3f32; 300]), SPEECH.to_bits()), None);
    for _ in 0..9 {
        assert_eq!(vad.push_frame(&bits(&vec![0.0f32; 500]), SILENCE.to_bits()), None);
    }
    assert_eq!(
        vad.push_frame(&bits(&vec![0.0f32; 0]), SILENCE.to_bits()),
        Some(bits(&vec![0.3f32; 300]))
    );
    // 4799 samples: one too few.
    let mut vad = VadProcessor::new();
    assert_eq!(vad.push_frame(&bits(&vec![0.3f32; 299]), SPEECH.to_bits()), None);
    for _ in 0..9 {
        assert_eq!(vad.push_frame(&bits(&vec![0.0f32; 500]), SILENCE.to_bits()), None);
    }
    assert_eq!(vad.push_frame(&bits(&vec![0.0f32; 0]), SILENCE.to_bits()), None);
}

#[test]
fn finish_returns_an_unterminated_utterance() {
    let mut vad = VadProcessor::new();
    let samples = tone(10);
    let segments = vad.process_audio(&bits(&samples), &bits(&vec![SPEECH; 10])).unwrap();
    assert!(segments.is_empty());
    assert!(vad.is_speaking());
    let last = vad.finish().unwrap();
    assert_eq!(floats(&last), vec![0.25f32; 10 * 512 - 20]);
}

#[test]
fn finish_drops_an_utterance_that_is_too_short() {
    let mut vad = VadProcessor::new();
    let samples = tone(9);
    assert!(samples.len() < 4800);
    vad.process_audio(&bits(&samples), &bits(&vec![SPEECH; 9])).unwrap();
    assert!(vad.is_speaking());
    assert_eq!(vad.finish(), None);
    assert_eq!(VadProcessor::new().finish(), None);
}

#[test]
fn state_persists_across_buffers() {
    let mut vad = VadProcessor::new();
    let first = tone(6);
    assert!(vad.process_audio(&bits(&first), &bits(&vec![SPEECH; 6])).unwrap().is_empty());
    let mut second = tone(6);
    second.extend(vec![0.0f32; 10 * 512]);
    let mut verdicts = vec![SPEECH; 6];
    verdicts.extend(vec![SILENCE; 10]);
    let segments = vad.process_audio(&bits(&second), &bits(&verdicts)).unwrap();
    assert_eq!(segments.len(), 1);
    assert_eq!(segments[0].len(), 12 * 512 - 20);
}

#[test]
fn partial_last_frame_is_gathered_unpadded() {
    let mut samples = vec![0.25f32; 10 * 512 + 100];
    samples.extend(Vec::<f32>::new());
    let mut vad = VadProcessor::new();
    vad.process_audio(&bits(&samples), &bits(&vec![SPEECH; 11])).unwrap();
    assert_eq!(vad.finish().unwrap().len(), 10 * 512 + 100);
}

#[test]
fn probabilities_must_match_frames() {
    let mut vad = VadProcessor::new();
    let samples = bits(&tone(3));
    let result = vad.process_audio(&samples, &bits(&[SPEECH, SPEECH]));
    assert_eq!(
        result,
        Err(AudioError::VadProcessingFailed("one probability per frame is needed".to_string()))
    );
    assert!(!vad.is_speaking());
    assert!(collect_segments(&samples, &bits(&[SPEECH; 4])).is_err());
}

#[test]
fn whole_recording_includes_the_final_utterance() {
    let mut samples = tone(10);
    samples.extend(vec![0.0f32; 10 * 512]);
    samples.extend(tone(11));
    let mut verdicts = vec![SPEECH; 10];
    verdicts.extend(vec![SILENCE; 10]);
    verdicts.extend(vec![SPEECH; 11]);
    let segments = collect_segments(&bits(&samples), &bits(&verdicts)).unwrap();
    assert_eq!(segments.len(), 2);
    assert_eq!(segments[0].len(), 10 * 512 - 20);
    assert_eq!(segments[1].len(), 11 * 512 - 20);
    assert!(collect_segments(&[], &[]).unwrap().is_empty());
}
