use echoes::resample::{count_chunks, proportional_output_len, CHUNK_SIZE, TARGET_RATE};
use echoes::{needs_resampling, resample_inputs, resample_to_16khz, AudioError};
use rubato::{
    Resampler, SincFixedIn, SincInterpolationParameters, SincInterpolationType, WindowFunction,
};

fn bits(samples: &[f32]) -> Vec<u32> {
    samples.iter().map(|s| s.to_bits()).collect()
}

/// Converts the chunks with the resampler that the application uses.
fn convert(inputs: &[Vec<u32>], from_rate: u32) -> Vec<Vec<u32>> {
    let parameters = SincInterpolationParameters {
        sinc_len: 256,
        f_cutoff: 0.95,
        interpolation: SincInterpolationType::Linear,
        oversampling_factor: 256,
        window: WindowFunction::BlackmanHarris2,
    };
    let mut resampler =
        SincFixedIn::<f32>::new(16000_f64 / f64::from(from_rate), 2.0, parameters, 1024, 1)
            .unwrap();
    let mut converted = Vec::new();
    for input in inputs {
        let wave: Vec<f32> = input.iter().map(|b| f32::from_bits(*b)).collect();
        let out = resampler.process(&[wave], None).unwrap();
        converted.push(bits(&out[0]));
    }
    converted
}

#[test]
fn audio_at_the_target_rate_is_returned_unchanged() {
    let samples: Vec<u32> = (0..16000u32).map(|i| (i as f32 / 16000.0).to_bits()).collect();
    assert!(!needs_resampling(16000));
    assert!(resample_inputs(&samples, 16000).is_empty());
    assert_eq!(resample_to_16khz(&samples, 16000, &vec![]), Ok(samples.clone()));
    // Whatever is handed in as converted chunks is not looked at.
    assert_eq!(resample_to_16khz(&samples, 16000, &vec![vec![1, 2, 3]]), Ok(samples));
}

#[test]
fn constants() {
    assert_eq!(TARGET_RATE, 16000);
    assert_eq!(CHUNK_SIZE, 1024);
    assert!(needs_resampling(48000));
    assert!(needs_resampling(0));
}

#[test]
fn input_is_cut_into_padded_chunks() {
    let samples: Vec<u32> = (1..=2500u32).collect();
    assert_eq!(count_chunks(2500), 3);
    assert_eq!(count_chunks(2048), 2);
    assert_eq!(count_chunks(0), 0);
    let inputs = resample_inputs(&samples, 48000);
    assert_eq!(inputs.len(), 3);
    assert_eq!(inputs[0], (1..=1024u32).collect::<Vec<u32>>());
    assert_eq!(inputs[1], (1025..=2048u32).collect::<Vec<u32>>());
    assert_eq!(inputs[2].len(), 1024);
    assert_eq!(&inputs[2][..452], &(2049..=2500u32).collect::<Vec<u32>>()[..]);
    assert!(inputs[2][452..].iter().all(|b| *b == 0));
    assert!(resample_inputs(&[], 48000).is_empty());
}

#[test]
fn proportional_length_is_rounded_down() {
    assert_eq!(proportional_output_len(452, 48000), 150);
    assert_eq!(proportional_output_len(500, 48000), 166);
    assert_eq!(proportional_output_len(1, 48000), 0);
    assert_eq!(proportional_output_len(3, 48000), 1);
    assert_eq!(proportional_output_len(1000, 44100), 362);
    assert_eq!(proportional_output_len(1000, 8000), 2000);
    assert_eq!(proportional_output_len(0, 48000), 0);
}

#[test]
fn full_chunks_are_taken_whole_and_the_tail_in_proportion() {
    let samples = vec![7u32; 2500];
    let converted = vec![vec![1u32; 341], vec![2u32; 342], vec![3u32; 341]];
    let output = resample_to_16khz(&samples, 48000, &converted).unwrap();
    let mut expected = vec![1u32; 341];
    expected.extend(vec![2u32; 342]);
    expected.extend(vec![3u32; 150]);
    assert_eq!(output, expected);
}

#[test]
fn tail_is_never_longer_than_what_was_produced() {
    let samples = vec![7u32; 1000];
    let output = resample_to_16khz(&samples, 8000, &vec![vec![5u32; 1200]]).unwrap();
    assert_eq!(output, vec![5u32; 1200]);
    let output = resample_to_16khz(&samples, 8000, &vec![vec![5u32; 2048]]).unwrap();
    assert_eq!(output, vec![5u32; 2000]);
}

#[test]
fn wrong_parameters_are_errors() {
    let samples = vec![7u32; 2500];
    assert_eq!(
        resample_to_16khz(&samples, 0, &vec![vec![], vec![], vec![]]),
        Err(AudioError::StreamCreationFailed(
            "Failed to create resampler: the input rate is zero".to_string()
        ))
    );
    assert_eq!(
        resample_to_16khz(&samples, 48000, &vec![vec![1], vec![2]]),
        Err(AudioError::StreamCreationFailed(
            "Resampling failed: one output chunk per input chunk is needed".to_string()
        ))
    );
}

#[test]
fn resampling_48k_to_16k_gives_about_a_third() {
    let len = 48000usize;
    let samples: Vec<f32> =
        (0..len).map(|i| (i as f32 * 440.0 * 6.283_185_5 / 48000.0).sin() * 0.5).collect();
    let samples = bits(&samples);
    let inputs = resample_inputs(&samples, 48000);
    assert_eq!(inputs.len(), 47);
    let converted = convert(&inputs, 48000);
    let output = resample_to_16khz(&samples, 48000, &converted).unwrap();
    let third = len / 3;
    let within = 1024 / 3 + 1;
    assert!(output.len() + within >= third && output.len() <= third + within, "{}", output.len());
    // The tail is cut to its share: 896 samples are worth 298.
    let full: usize = converted[..46].iter().map(|c| c.len()).sum();
    assert_eq!(output.len(), full + 298);
}
