use echoes::ring::{gather_chunk, slots_for, MAX_RING_SLOTS};
use echoes::{sample_channel, AudioError, AudioRecorder, SampleFormat};

#[test]
fn samples_come_out_in_the_order_written() {
    let (mut writer, mut reader) = sample_channel(8).unwrap();
    assert!(writer.write_chunk(&[1, 2, 3]));
    assert!(writer.write_chunk(&[4, 5]));
    assert_eq!(reader.drain(), vec![1, 2, 3, 4, 5]);
    assert_eq!(reader.drain(), Vec::<u32>::new());
    // The ring wraps around.
    assert!(writer.write_chunk(&[6, 7, 8, 9, 10, 11]));
    assert_eq!(reader.drain(), vec![6, 7, 8, 9, 10, 11]);
    assert_eq!(writer.dropped_chunks(), 0);
}

#[test]
fn chunk_that_does_not_fit_is_dropped_whole() {
    let (mut writer, mut reader) = sample_channel(8).unwrap();
    assert!(writer.write_chunk(&[1, 2, 3, 4, 5]));
    assert!(!writer.write_chunk(&[6, 7, 8, 9]));
    assert_eq!(writer.dropped_chunks(), 1);
    assert!(writer.write_chunk(&[10, 11, 12]));
    assert!(!writer.write_chunk(&[13]));
    assert_eq!(writer.dropped_chunks(), 2);
    assert_eq!(reader.drain(), vec![1, 2, 3, 4, 5, 10, 11, 12]);
    assert!(writer.write_chunk(&[13]));
    assert_eq!(reader.drain(), vec![13]);
}

#[test]
fn chunk_larger_than_the_ring_is_never_taken() {
    let (mut writer, mut reader) = sample_channel(4).unwrap();
    assert!(!writer.write_chunk(&[1, 2, 3, 4, 5]));
    assert_eq!(writer.dropped_chunks(), 1);
    assert!(writer.write_chunk(&[1, 2, 3, 4]));
    assert!(writer.write_chunk(&[]));
    assert_eq!(reader.drain(), vec![1, 2, 3, 4]);
}

#[test]
fn clear_discards_buffered_samples() {
    let (mut writer, mut reader) = sample_channel(16).unwrap();
    writer.write_chunk(&[1, 2, 3]);
    assert_eq!(reader.clear(), 3);
    assert_eq!(reader.clear(), 0);
    writer.write_chunk(&[4]);
    assert_eq!(reader.drain(), vec![4]);
}

#[test]
fn writing_and_reading_interleaved() {
    let (mut writer, mut reader) = sample_channel(1000).unwrap();
    let mut next = 0u32;
    let mut read = Vec::new();
    for round in 0..100 {
        let chunk: Vec<u32> = (next..next + 480).collect();
        if writer.write_chunk(&chunk) {
            next += 480;
        }
        if round % 3 == 2 {
            read.extend(reader.drain());
        }
    }
    read.extend(reader.drain());
    assert_eq!(read, (0..next).collect::<Vec<u32>>());
    assert_eq!(u64::from(next / 480) + writer.dropped_chunks(), 100);
    assert!(writer.dropped_chunks() > 0);
}

#[test]
fn ring_size_is_limited() {
    assert!(sample_channel(MAX_RING_SLOTS + 1).is_none());
    assert!(sample_channel(0).is_some());
    assert_eq!(slots_for(300, 16000), 4_800_000);
    assert_eq!(slots_for(u32::MAX, u32::MAX), 18_446_744_065_119_617_025);
}

#[test]
fn recorder_defaults() {
    let recorder = AudioRecorder::new();
    assert!(recorder.use_vad());
    assert_eq!(recorder.sample_rate(), 16000);
    assert_eq!(recorder.max_duration_seconds(), 300);
    assert_eq!(recorder.ring_buffer_capacity(), 300 * 16000);
    let plain = AudioRecorder::new_without_vad();
    assert!(!plain.use_vad());
    assert_eq!(plain.max_duration_seconds(), 300);
    assert!(AudioRecorder::default().use_vad());
}

#[test]
fn recorder_settings() {
    let mut recorder = AudioRecorder::new();
    recorder.set_vad(false);
    assert!(!recorder.use_vad());
    recorder.set_max_duration(2);
    assert_eq!(recorder.max_duration_seconds(), 2);
    assert_eq!(recorder.ring_buffer_capacity(), 32000);
}

#[test]
fn session_from_start_to_stop() {
    let mut recorder = AudioRecorder::new();
    recorder.set_max_duration(1);
    let mut session = recorder.start_recording(48000, &SampleFormat::Int16).unwrap();
    assert_eq!(recorder.sample_rate(), 48000);
    assert_eq!(session.native_sample_rate(), 48000);
    let mut writer = session.take_writer().unwrap();
    assert!(session.take_writer().is_none());
    assert!(writer.write_chunk(&vec![9; 16000]));
    // The channel has room for one second at 16 kHz.
    assert!(!writer.write_chunk(&[1]));
    assert_eq!(session.clear(), 16000);
    assert!(writer.write_chunk(&[1, 2, 3]));
    assert!(writer.write_chunk(&[4]));
    assert_eq!(session.stop(), vec![1, 2, 3, 4]);
}

#[test]
fn unsupported_formats_fail_fast() {
    let mut recorder = AudioRecorder::new();
    let result = recorder.start_recording(44100, &SampleFormat::Other("I8".to_string()));
    assert_eq!(result.err(), Some(AudioError::UnsupportedFormat("I8".to_string())));
    assert_eq!(recorder.sample_rate(), 16000);
    for format in [SampleFormat::Float32, SampleFormat::Int16, SampleFormat::Uint16] {
        recorder.set_max_duration(1);
        assert!(recorder.start_recording(44100, &format).is_ok());
    }
}

#[test]
fn too_long_a_session_is_refused() {
    let mut recorder = AudioRecorder::new();
    recorder.set_max_duration(u32::MAX);
    let result = recorder.start_recording(44100, &SampleFormat::Float32);
    assert_eq!(
        result.err(),
        Some(AudioError::Other("Recording duration exceeds the buffer limit".to_string()))
    );
    assert_eq!(recorder.sample_rate(), 16000);
}

#[test]
fn segmentation_can_be_switched_off() {
    let mut samples = vec![0.25f32.to_bits(); 10 * 512];
    samples.extend(vec![0u32; 10 * 512]);
    let mut verdicts = vec![0.9f32.to_bits(); 10];
    verdicts.extend(vec![0.1f32.to_bits(); 10]);
    let recorder = AudioRecorder::new();
    let segments = recorder.process_samples_with_vad(&samples, &verdicts).unwrap();
    assert_eq!(segments, vec![vec![0.25f32.to_bits(); 10 * 512]]);
    assert!(recorder.process_samples_with_vad(&samples, &[]).is_err());
    let plain = AudioRecorder::new_without_vad();
    assert!(plain.process_samples_with_vad(&samples, &verdicts).unwrap().is_empty());
    assert!(plain.process_samples_with_vad(&samples, &[]).unwrap().is_empty());
}

#[test]
fn chunks_are_gathered_until_one_is_empty() {
    let mut gathered = vec![1, 2];
    assert!(gather_chunk(&mut gathered, vec![3, 4, 5]));
    assert_eq!(gathered, vec![1, 2, 3, 4, 5]);
    assert!(gather_chunk(&mut gathered, vec![6]));
    assert!(!gather_chunk(&mut gathered, vec![]));
    assert_eq!(gathered, vec![1, 2, 3, 4, 5, 6]);
}
