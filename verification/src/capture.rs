//! Audio capture: the recorder's settings and the session that lasts from
//! the start of a recording to its end.
//!
//! The audio device is driven outside this library. What is decided here is
//! which device formats are taken, how large the session's sample channel
//! is, and what comes out of it when the session ends.

use vstd::prelude::*;
use vstd::string::*;
use crate::error::{AudioError, AudioErrorView};
use crate::resample::TARGET_RATE;
use crate::ring::{MAX_RING_SLOTS, SampleReader, SampleWriter, sample_channel, slots_for};
use crate::vad::{collect_segments, frame_count, segment_views, utterances};

verus! {

/// The longest session by default, in seconds.
pub const DEFAULT_MAX_DURATION_SECONDS: u32 = 300;

/// The format in which the device delivers samples. Three formats are
/// taken; any other is carried by its name.
#[derive(Debug, PartialEq, Eq)]
pub enum SampleFormat {
    /// 32-bit floating point.
    Float32,
    /// Signed 16-bit integers.
    Int16,
    /// Unsigned 16-bit integers.
    Uint16,
    /// Any other format, by name.
    Other(String),
}

/// Recorder settings.
pub struct AudioRecorder {
    use_vad: bool,
    sample_rate: u32,
    max_duration_seconds: u32,
}

/// The settings as a mathematical value.
pub struct RecorderView {
    /// Whether recordings are segmented into utterances.
    pub use_vad: bool,
    /// The device's rate in the last session, 16 kHz before the first.
    pub sample_rate: u32,
    /// The longest session that the sample channel has room for.
    pub max_duration_seconds: u32,
}

impl View for AudioRecorder {
    type V = RecorderView;

    closed spec fn view(&self) -> RecorderView {
        RecorderView {
            use_vad: self.use_vad,
            sample_rate: self.sample_rate,
            max_duration_seconds: self.max_duration_seconds,
        }
    }
}

/// A running recording: both ends of its sample channel and the device's
/// rate. The writing end is handed to the audio callback.
pub struct AudioSession {
    writer: Option<SampleWriter>,
    reader: SampleReader,
    native_sample_rate: u32,
}

/// The slots of a session's sample channel: room for the longest session at
/// the target rate.
pub open spec fn session_slots(settings: RecorderView) -> nat {
    (settings.max_duration_seconds * TARGET_RATE) as nat
}

impl Default for AudioRecorder {
    fn default() -> (recorder: Self)
        ensures
            recorder@ == (RecorderView {
                use_vad: true,
                sample_rate: TARGET_RATE,
                max_duration_seconds: DEFAULT_MAX_DURATION_SECONDS,
            }),
    {
        AudioRecorder::new()
    }
}

impl AudioRecorder {
    /// A recorder that segments its recordings, with room for five minutes.
    pub fn new() -> (recorder: Self)
        ensures
            recorder@ == (RecorderView {
                use_vad: true,
                sample_rate: TARGET_RATE,
                max_duration_seconds: DEFAULT_MAX_DURATION_SECONDS,
            }),
    {
        AudioRecorder {
            use_vad: true,
            sample_rate: TARGET_RATE,
            max_duration_seconds: DEFAULT_MAX_DURATION_SECONDS,
        }
    }

    /// A recorder that does not segment its recordings.
    pub fn new_without_vad() -> (recorder: Self)
        ensures
            recorder@ == (RecorderView {
                use_vad: false,
                sample_rate: TARGET_RATE,
                max_duration_seconds: DEFAULT_MAX_DURATION_SECONDS,
            }),
    {
        AudioRecorder {
            use_vad: false,
            sample_rate: TARGET_RATE,
            max_duration_seconds: DEFAULT_MAX_DURATION_SECONDS,
        }
    }

    /// Switches segmentation on or off.
    pub fn set_vad(&mut self, use_vad: bool)
        ensures
            final(self)@ == (RecorderView { use_vad, ..old(self)@ }),
    {
        self.use_vad = use_vad;
    }

    /// Sets the longest session, in seconds.
    pub fn set_max_duration(&mut self, seconds: u32)
        ensures
            final(self)@ == (RecorderView { max_duration_seconds: seconds, ..old(self)@ }),
    {
        self.max_duration_seconds = seconds;
    }

    /// Whether recordings are segmented.
    pub fn use_vad(&self) -> (flag: bool)
        ensures
            flag == self@.use_vad,
    {
        self.use_vad
    }

    /// The device's rate in the last session.
    pub fn sample_rate(&self) -> (rate: u32)
        ensures
            rate == self@.sample_rate,
    {
        self.sample_rate
    }

    /// The longest session, in seconds.
    pub fn max_duration_seconds(&self) -> (seconds: u32)
        ensures
            seconds == self@.max_duration_seconds,
    {
        self.max_duration_seconds
    }

    /// The slots that a session's sample channel gets.
    pub fn ring_buffer_capacity(&self) -> (slots: u64)
        ensures
            slots == session_slots(self@),
    {
        slots_for(self.max_duration_seconds, TARGET_RATE)
    }

    /// The speech segments of a finished recording at the target rate, or
    /// none at all where segmentation is switched off.
    pub fn process_samples_with_vad(&self, samples: &[u32], probabilities: &[u32]) -> (result:
        Result<Vec<Vec<u32>>, AudioError>)
        ensures
            result is Ok <==> !self@.use_vad || probabilities@.len() == frame_count(
                samples@.len(),
            ),
            result matches Ok(segments) ==> segment_views(segments@) == if self@.use_vad {
                utterances(samples@, probabilities@)
            } else {
                Seq::<Seq<u32>>::empty()
            },
            result matches Err(error) ==> error@ == AudioErrorView::VadProcessingFailed(
                "one probability per frame is needed"@,
            ),
    {
        if !self.use_vad {
            let segments: Vec<Vec<u32>> = Vec::new();
            return Ok(segments);
        }
        collect_segments(samples, probabilities)
    }

    /// Starts a session for a device that delivers `format` at
    /// `native_rate`.
    ///
    /// Fails fast on a format other than the three that are taken, and on a
    /// session length that no sample channel has room for. On success the
    /// recorder remembers the device's rate.
    pub fn start_recording(&mut self, native_rate: u32, format: &SampleFormat) -> (result: Result<
        AudioSession,
        AudioError,
    >)
        ensures
            result is Ok <==> !(format is Other) && session_slots(old(self)@) <= MAX_RING_SLOTS,
            result matches Ok(session) ==> final(self)@ == (RecorderView {
                sample_rate: native_rate,
                ..old(self)@
            }) && session.fresh() && session.rate() == native_rate && session.slots()
                == session_slots(old(self)@),
            result matches Err(error) ==> final(self)@ == old(self)@ && error@ == (match format {
                SampleFormat::Other(name) => AudioErrorView::UnsupportedFormat(name@),
                _ => AudioErrorView::Other("Recording duration exceeds the buffer limit"@),
            }),
    {
        if let SampleFormat::Other(name) = format {
            return Err(AudioError::UnsupportedFormat(name.clone()));
        }
        let slots = self.ring_buffer_capacity();
        if slots > MAX_RING_SLOTS as u64 {
            return Err(
                AudioError::Other(String::from_str("Recording duration exceeds the buffer limit")),
            );
        }
        match sample_channel(slots as usize) {
            Some((writer, reader)) => {
                self.sample_rate = native_rate;
                Ok(AudioSession { writer: Some(writer), reader, native_sample_rate: native_rate })
            },
            None => Err(
                AudioError::Other(String::from_str("Recording duration exceeds the buffer limit")),
            ),
        }
    }
}

impl AudioSession {
    /// The device's rate.
    pub closed spec fn rate(&self) -> u32 {
        self.native_sample_rate
    }

    /// The samples that have been read out of the session so far.
    pub closed spec fn collected(&self) -> Seq<u32> {
        self.reader.taken()
    }

    /// The writing end, while it is with the session.
    pub closed spec fn writer_end(&self) -> Option<SampleWriter> {
        self.writer
    }

    /// Whether the writing end is still with the session.
    pub open spec fn holds_writer(&self) -> bool {
        self.writer_end() is Some
    }

    /// The slots of the session's channel, while the writing end is with
    /// the session.
    pub open spec fn slots(&self) -> nat {
        self.writer_end()->0.capacity()
    }

    /// A session through which nothing has passed.
    pub open spec fn fresh(&self) -> bool {
        &&& self.writer_end() matches Some(writer)
        &&& writer.written() == Seq::<u32>::empty()
        &&& writer.dropped() == 0
        &&& self.collected() == Seq::<u32>::empty()
    }

    /// The device's rate.
    pub fn native_sample_rate(&self) -> (rate: u32)
        ensures
            rate == self.rate(),
    {
        self.native_sample_rate
    }

    /// Hands out the writing end, once: the session's own, with the slots
    /// of the session's channel and with what has been written and dropped
    /// through it so far.
    pub fn take_writer(&mut self) -> (writer: Option<SampleWriter>)
        ensures
            writer == old(self).writer_end(),
            writer matches Some(w) ==> w.capacity() == old(self).slots(),
            !final(self).holds_writer(),
            final(self).rate() == old(self).rate(),
            final(self).collected() == old(self).collected(),
    {
        self.writer.take()
    }

    /// Discards the samples buffered so far. Capture goes on: the writing
    /// end and the channel's slots stay as they are.
    pub fn clear(&mut self) -> (discarded: usize)
        ensures
            final(self).rate() == old(self).rate(),
            final(self).writer_end() == old(self).writer_end(),
            final(self).slots() == old(self).slots(),
            final(self).collected().len() == old(self).collected().len() + discarded,
            final(self).collected().take(old(self).collected().len() as int) == old(
                self,
            ).collected(),
    {
        self.reader.clear()
    }

    /// Ends the session: lets go of the writing end, if it is still here,
    /// and returns the buffered samples in the order in which they were
    /// read out of the channel.
    pub fn stop(&mut self) -> (samples: Vec<u32>)
        ensures
            final(self).rate() == old(self).rate(),
            !final(self).holds_writer(),
            final(self).collected() == old(self).collected() + samples@,
    {
        self.writer = None;
        self.reader.drain()
    }
}

} // verus!
