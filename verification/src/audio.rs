//! Audio pipeline policy: capture configuration, voice-activity and silence
//! detection over 16-bit PCM, backpressure accounting, and network batching.
//!
//! Sample buffers are inspected with exact integer arithmetic: a chunk's
//! mean square against a threshold `t` is compared as
//! `sum(s_i^2) / (32767^2 * n) <=> t^2` over the rationals.

use vstd::prelude::*;

verus! {

/// Immutable per-session audio configuration.
#[derive(Debug, Clone)]
pub struct AudioConfig {
    pub input_sample_rate: u32,
    pub target_sample_rate: u32,
    pub channels: u16,
    pub buffer_size: u32,
    pub chunk_duration_ms: u32,
}

impl Default for AudioConfig {
    fn default() -> (r: Self)
        ensures
            r.input_sample_rate == 48000,
            r.target_sample_rate == 16000,
            r.channels == 1,
            r.buffer_size == 480,
            r.chunk_duration_ms == 100,
    {
        AudioConfig {
            input_sample_rate: 48000,
            target_sample_rate: 16000,
            channels: 1,
            buffer_size: 480,
            chunk_duration_ms: 100,
        }
    }
}

/// A 100 ms slice of mono 16 kHz PCM, with the time spent producing it.
#[derive(Debug, Clone)]
pub struct ProcessedAudioChunk {
    pub samples: Vec<i16>,
    pub processing_time_ms: u64,
}

/// Errors of the audio capture and processing pipeline.
#[derive(Debug)]
pub enum AudioError {
    InvalidConfig(String),
    NoInputDevice,
    DefaultInputConfig(String),
    UnsupportedSampleFormat(String),
    StreamBuild(String),
    StreamNotInitialized,
    StreamStart(String),
    StreamStop(String),
    ConsumerAlreadyTaken,
    RingBufferFull,
    ResamplerCreate(String),
    ResamplerProcess(String),
    InvalidInput(String),
    OutputChannelClosed,
}

impl AudioError {
    pub fn message(&self) -> (r: String)
        ensures
            match self {
                AudioError::InvalidConfig(m) => r@ == "invalid audio config: "@ + m@,
                AudioError::NoInputDevice => r@ == "no audio input device available"@,
                AudioError::DefaultInputConfig(m) => r@ == "failed to read default input config: "@
                    + m@,
                AudioError::UnsupportedSampleFormat(m) => r@
                    == "unsupported audio sample format: "@ + m@,
                AudioError::StreamBuild(m) => r@ == "failed to build audio stream: "@ + m@,
                AudioError::StreamNotInitialized => r@ == "audio stream is not initialized"@,
                AudioError::StreamStart(m) => r@ == "failed to start audio stream: "@ + m@,
                AudioError::StreamStop(m) => r@ == "failed to stop audio stream: "@ + m@,
                AudioError::ConsumerAlreadyTaken => r@
                    == "ring buffer consumer has already been taken"@,
                AudioError::RingBufferFull => r@
                    == "audio ring buffer is full and chunks are being dropped"@,
                AudioError::ResamplerCreate(m) => r@ == "failed to create resampler: "@ + m@,
                AudioError::ResamplerProcess(m) => r@ == "failed to process resampler chunk: "@
                    + m@,
                AudioError::InvalidInput(m) => r@ == "invalid audio input: "@ + m@,
                AudioError::OutputChannelClosed => r@ == "output channel receiver dropped"@,
            },
    {
        match self {
            AudioError::InvalidConfig(m) => String::from_str("invalid audio config: ").concat(
                m.as_str(),
            ),
            AudioError::NoInputDevice => String::from_str("no audio input device available"),
            AudioError::DefaultInputConfig(m) => String::from_str(
                "failed to read default input config: ",
            ).concat(m.as_str()),
            AudioError::UnsupportedSampleFormat(m) => String::from_str(
                "unsupported audio sample format: ",
            ).concat(m.as_str()),
            AudioError::StreamBuild(m) => String::from_str("failed to build audio stream: ")
                .concat(m.as_str()),
            AudioError::StreamNotInitialized => String::from_str(
                "audio stream is not initialized",
            ),
            AudioError::StreamStart(m) => String::from_str("failed to start audio stream: ")
                .concat(m.as_str()),
            AudioError::StreamStop(m) => String::from_str("failed to stop audio stream: ").concat(
                m.as_str(),
            ),
            AudioError::ConsumerAlreadyTaken => String::from_str(
                "ring buffer consumer has already been taken",
            ),
            AudioError::RingBufferFull => String::from_str(
                "audio ring buffer is full and chunks are being dropped",
            ),
            AudioError::ResamplerCreate(m) => String::from_str("failed to create resampler: ")
                .concat(m.as_str()),
            AudioError::ResamplerProcess(m) => String::from_str(
                "failed to process resampler chunk: ",
            ).concat(m.as_str()),
            AudioError::InvalidInput(m) => String::from_str("invalid audio input: ").concat(
                m.as_str(),
            ),
            AudioError::OutputChannelClosed => String::from_str(
                "output channel receiver dropped",
            ),
        }
    }
}

impl AudioConfig {
    /// Checks the fields a capture session needs; mirrors the open-device
    /// validation: channels must be 1 and the buffer size nonzero.
    pub fn validate_for_capture(&self) -> (r: Result<(), AudioError>)
        ensures
            match r {
                Ok(()) => self.channels == 1 && self.buffer_size > 0,
                Err(e) => (self.channels != 1 || self.buffer_size == 0) && e is InvalidConfig,
            },
    {
        if self.channels == 0 {
            return Err(
                AudioError::InvalidConfig(
                    String::from_str("channels must be greater than 0"),
                ),
            );
        }
        if self.channels != 1 {
            return Err(
                AudioError::InvalidConfig(
                    String::from_str("phase 1 only supports mono output"),
                ),
            );
        }
        if self.buffer_size == 0 {
            return Err(
                AudioError::InvalidConfig(
                    String::from_str("buffer_size must be greater than 0"),
                ),
            );
        }
        Ok(())
    }

    /// Capacity of the capture ring buffer: two buffers per second of audio,
    /// and at least 64 slots.
    pub fn ring_capacity(&self) -> (r: u64)
        requires
            self.buffer_size > 0,
        ensures
            r == if 2 * (self.input_sample_rate as int / self.buffer_size as int) > 64 {
                2 * (self.input_sample_rate as int / self.buffer_size as int)
            } else {
                64int
            },
    {
        let per_second: u64 = (self.input_sample_rate / self.buffer_size) as u64;
        let doubled: u64 = per_second * 2;
        if doubled > 64 {
            doubled
        } else {
            64
        }
    }

    /// Samples per processing chunk: `chunk_duration_ms` worth of input,
    /// and at least one.
    pub fn chunk_target_samples(&self) -> (r: u64)
        ensures
            r == if (self.input_sample_rate as int * self.chunk_duration_ms as int) / 1000 > 1 {
                (self.input_sample_rate as int * self.chunk_duration_ms as int) / 1000
            } else {
                1int
            },
    {
        proof {
            assert((self.input_sample_rate as int) * (self.chunk_duration_ms as int)
                < 0x10000000000000000) by (nonlinear_arith)
                requires
                    0 <= (self.input_sample_rate as int) && (self.input_sample_rate as int) < 0x100000000,
                    0 <= (self.chunk_duration_ms as int) && (self.chunk_duration_ms as int) < 0x100000000,
            ;
        }
        let product: u64 = (self.input_sample_rate as u64) * (self.chunk_duration_ms as u64);
        let target: u64 = product / 1000;
        if target > 1 {
            target
        } else {
            1
        }
    }

    /// The denoiser runs only at its native 48 kHz input rate.
    pub fn denoiser_active(&self) -> (r: bool)
        ensures
            r == (self.input_sample_rate == 48000),
    {
        self.input_sample_rate == 48000
    }
}

/// |s|, with the most negative sample clamped to 32767 as the pipeline does.
pub open spec fn spec_abs_sample(s: i16) -> int {
    if s == i16::MIN {
        32767
    } else if s < 0 {
        -(s as int)
    } else {
        s as int
    }
}

/// The largest sample magnitude in the chunk.
pub open spec fn spec_max_abs(s: Seq<i16>) -> int
    decreases s.len(),
{
    if s.len() == 0 {
        0
    } else if spec_abs_sample(s.last()) > spec_max_abs(s.drop_last()) {
        spec_abs_sample(s.last())
    } else {
        spec_max_abs(s.drop_last())
    }
}

/// The sum of squared samples.
pub open spec fn spec_sum_squares(s: Seq<i16>) -> int
    decreases s.len(),
{
    if s.len() == 0 {
        0
    } else {
        spec_sum_squares(s.drop_last()) + s.last() as int * s.last() as int
    }
}

proof fn lemma_sum_squares_bound(s: Seq<i16>)
    ensures
        0 <= spec_sum_squares(s) <= s.len() * 0x40000000,
    decreases s.len(),
{
    if s.len() > 0 {
        lemma_sum_squares_bound(s.drop_last());
        let v = s.last() as int;
        assert(v * v <= 0x40000000) by (nonlinear_arith)
            requires
                -0x8000 <= v <= 0x7FFF,
        ;
        assert(v * v >= 0) by (nonlinear_arith);
    }
}

/// The largest `|sample|` of the chunk, treating `i16::MIN` as 32767.
pub fn max_abs_sample(samples: &[i16]) -> (r: i16)
    ensures
        r as int == spec_max_abs(samples@),
        r >= 0,
{
    let len: usize = samples.len();
    let mut max: i16 = 0;
    let mut i: usize = 0;
    proof {
        assert(samples@.take(0int) =~= Seq::<i16>::empty());
    }
    while i < len
        invariant
            len == samples@.len(),
            0 <= i <= len,
            max >= 0,
            max as int == spec_max_abs(samples@.take(i as int)),
        decreases len - i,
    {
        let s = samples[i];
        let abs: i16 = if s == i16::MIN {
            i16::MAX
        } else if s < 0 {
            -s
        } else {
            s
        };
        proof {
            assert(samples@.take(i + 1int).drop_last() =~= samples@.take(i as int));
            assert(samples@.take(i + 1int).last() == samples@[i as int]);
        }
        if abs > max {
            max = abs;
        }
        i = i + 1;
    }
    proof {
        assert(samples@.take(len as int) =~= samples@);
    }
    max
}

/// The exact sum of squared samples of the chunk.
pub fn sum_squares(samples: &[i16]) -> (r: u128)
    ensures
        r as int == spec_sum_squares(samples@),
{
    let len: usize = samples.len();
    let mut acc: u128 = 0;
    let mut i: usize = 0;
    proof {
        assert(samples@.take(0int) =~= Seq::<i16>::empty());
    }
    while i < len
        invariant
            len == samples@.len(),
            0 <= i <= len,
            acc as int == spec_sum_squares(samples@.take(i as int)),
            acc <= (i as int) * 0x40000000,
        decreases len - i,
    {
        let v: i64 = samples[i] as i64;
        proof {
            assert(samples@.take(i + 1int).drop_last() =~= samples@.take(i as int));
            assert(samples@.take(i + 1int).last() == samples@[i as int]);
            assert(v * v <= 0x40000000 && v * v >= 0) by (nonlinear_arith)
                requires
                    -0x8000 <= v <= 0x7FFF,
            ;
            assert((i as int) * 0x40000000 + 0x40000000 == (i + 1int) * 0x40000000) by (nonlinear_arith);
            assert((i + 1int) * 0x40000000 <= 0x10000000000000000 * 0x40000000) by (nonlinear_arith)
                requires
                    0 <= i + 1int <= 0x10000000000000000,
            ;
        }
        let sq: u64 = (v * v) as u64;
        acc = acc + sq as u128;
        i = i + 1;
    }
    proof {
        assert(samples@.take(len as int) =~= samples@);
    }
    acc
}

/// The silence test of the sender loop: a quiet peak (at most 120) and a
/// mean square at most (0.0015)^2, compared exactly over the rationals.
pub open spec fn spec_is_silent_chunk(s: Seq<i16>) -> bool {
    if s.len() == 0 {
        true
    } else {
        spec_max_abs(s) <= 120 && 4000000 * spec_sum_squares(s) <= 9663086601 * s.len()
    }
}

/// Whether a processed chunk counts as silence for suppression purposes.
pub fn is_silent_chunk(samples: &[i16]) -> (r: bool)
    ensures
        r == spec_is_silent_chunk(samples@),
{
    let len: usize = samples.len();
    if len == 0 {
        return true;
    }
    let peak = max_abs_sample(samples);
    if peak > 120 {
        return false;
    }
    let sum = sum_squares(samples);
    proof {
        lemma_sum_squares_bound(samples@);
        assert(4000000 * spec_sum_squares(samples@) <= 4000000 * ((len as int) * 0x40000000))
            by (nonlinear_arith)
            requires
                spec_sum_squares(samples@) <= (len as int) * 0x40000000,
        ;
        assert(4000000 * ((len as int) * 0x40000000) < 0x100000000000000000000000000000000)
            by (nonlinear_arith)
            requires
                0 <= len as int <= 0x10000000000000000,
        ;
        assert(9663086601 * (len as int) < 0x100000000000000000000000000000000)
            by (nonlinear_arith)
            requires
                0 <= len as int <= 0x10000000000000000,
        ;
    }
    4000000u128 * sum <= 9663086601u128 * (len as u128)
}

/// The voice-activity test: a peak of at least 80, or a mean square of at
/// least (0.0008)^2, compared exactly over the rationals.
pub open spec fn spec_detect_voice_activity(s: Seq<i16>) -> bool {
    if s.len() == 0 {
        false
    } else {
        spec_max_abs(s) >= 80 || 1562500 * spec_sum_squares(s) >= 1073676289 * s.len()
    }
}

/// Whether a processed chunk sounds like speech.
pub fn detect_voice_activity(samples: &[i16]) -> (r: bool)
    ensures
        r == spec_detect_voice_activity(samples@),
{
    let len: usize = samples.len();
    if len == 0 {
        return false;
    }
    let peak = max_abs_sample(samples);
    if peak >= 80 {
        return true;
    }
    let sum = sum_squares(samples);
    proof {
        lemma_sum_squares_bound(samples@);
        assert(1562500 * spec_sum_squares(samples@) <= 1562500 * ((len as int) * 0x40000000))
            by (nonlinear_arith)
            requires
                spec_sum_squares(samples@) <= (len as int) * 0x40000000,
        ;
        assert(1562500 * ((len as int) * 0x40000000) < 0x100000000000000000000000000000000)
            by (nonlinear_arith)
            requires
                0 <= len as int <= 0x10000000000000000,
        ;
        assert(1073676289 * (len as int) < 0x100000000000000000000000000000000)
            by (nonlinear_arith)
            requires
                0 <= len as int <= 0x10000000000000000,
        ;
    }
    1562500u128 * sum >= 1073676289u128 * (len as u128)
}

/// Counts a chunk dropped at the capture ring buffer; every 100th drop is
/// worth a warning.
pub fn mark_dropped(dropped_chunks: &mut u64) -> (warn: bool)
    requires
        *old(dropped_chunks) < u64::MAX,
    ensures
        *final(dropped_chunks) == *old(dropped_chunks) + 1,
        warn == (*final(dropped_chunks) % 100 == 0),
{
    *dropped_chunks = *dropped_chunks + 1;
    *dropped_chunks % 100 == 0
}

/// Counts a processed chunk dropped on channel backpressure; every 50th drop
/// is worth a warning.
pub fn record_backpressure_drop(dropped_chunks: &mut u64) -> (warn: bool)
    requires
        *old(dropped_chunks) < u64::MAX,
    ensures
        *final(dropped_chunks) == *old(dropped_chunks) + 1,
        warn == (*final(dropped_chunks) % 50 == 0),
{
    *dropped_chunks = *dropped_chunks + 1;
    *dropped_chunks % 50 == 0
}


/// Most chunks per network batch before a flush is forced.
pub const MAX_AUDIO_BATCH_CHUNKS: usize = 3;

/// Silent chunks tolerated before suppression starts.
pub const SILENCE_CHUNK_GRACE: usize = 12;

/// Every this many suppressed chunks, one log line is worth emitting.
pub const SILENCE_SUPPRESS_LOG_EVERY: u64 = 50;

/// What the batcher decided about one incoming chunk.
pub struct ChunkDecision {
    pub voice_activity: bool,
    pub suppressed: bool,
    pub log_suppression: bool,
    pub flush: bool,
}

/// Accumulates processed chunks into network batches of at most
/// `MAX_AUDIO_BATCH_CHUNKS` chunks, suppressing sustained silence when asked
/// to; the time-based flush arm stays with the caller's timer.
pub struct AudioBatcher {
    pub batch_samples: Vec<i16>,
    pub batch_chunks: usize,
    pub silent_streak: usize,
    pub suppressed_silence_chunks: u64,
    pub suppression_enabled: bool,
}

impl AudioBatcher {
    pub fn new(suppression_enabled: bool) -> (r: Self)
        ensures
            r.batch_samples@ == Seq::<i16>::empty(),
            r.batch_chunks == 0,
            r.silent_streak == 0,
            r.suppressed_silence_chunks == 0,
            r.suppression_enabled == suppression_enabled,
    {
        AudioBatcher {
            batch_samples: Vec::new(),
            batch_chunks: 0,
            silent_streak: 0,
            suppressed_silence_chunks: 0,
            suppression_enabled,
        }
    }

    /// Whether a timer tick should flush what has accumulated.
    pub fn has_pending(&self) -> (r: bool)
        ensures
            r == (self.batch_chunks > 0),
    {
        self.batch_chunks > 0
    }

    /// Folds one processed chunk into the batch: reports voice activity,
    /// counts and suppresses sustained silence, and asks for a flush once
    /// the batch reaches `MAX_AUDIO_BATCH_CHUNKS` chunks.
    pub fn accept_chunk(&mut self, samples: &Vec<i16>) -> (decision: ChunkDecision)
        requires
            old(self).batch_chunks < usize::MAX,
            old(self).silent_streak < usize::MAX,
            old(self).suppressed_silence_chunks < u64::MAX,
            old(self).batch_samples@.len() + samples@.len() <= usize::MAX,
        ensures
            final(self).suppression_enabled == old(self).suppression_enabled,
            samples@.len() == 0 ==> *final(self) == *old(self) && !decision.voice_activity
                && !decision.suppressed && !decision.log_suppression && !decision.flush,
            samples@.len() > 0 ==> {
                let silent = old(self).suppression_enabled && spec_is_silent_chunk(samples@);
                &&& decision.voice_activity == spec_detect_voice_activity(samples@)
                &&& (silent && old(self).silent_streak >= SILENCE_CHUNK_GRACE ==> {
                    &&& decision.suppressed
                    &&& !decision.flush
                    &&& final(self).silent_streak == old(self).silent_streak + 1
                    &&& final(self).suppressed_silence_chunks == old(
                        self,
                    ).suppressed_silence_chunks + 1
                    &&& decision.log_suppression == (final(self).suppressed_silence_chunks
                        % SILENCE_SUPPRESS_LOG_EVERY == 0)
                    &&& final(self).batch_samples == old(self).batch_samples
                    &&& final(self).batch_chunks == old(self).batch_chunks
                })
                &&& (silent && old(self).silent_streak < SILENCE_CHUNK_GRACE ==> {
                    &&& !decision.suppressed
                    &&& !decision.log_suppression
                    &&& final(self).silent_streak == old(self).silent_streak + 1
                    &&& final(self).suppressed_silence_chunks == old(
                        self,
                    ).suppressed_silence_chunks
                    &&& final(self).batch_samples@ == old(self).batch_samples@ + samples@
                    &&& final(self).batch_chunks == old(self).batch_chunks + 1
                    &&& decision.flush == (final(self).batch_chunks >= MAX_AUDIO_BATCH_CHUNKS)
                })
                &&& (!silent ==> {
                    &&& !decision.suppressed
                    &&& !decision.log_suppression
                    &&& final(self).silent_streak == 0
                    &&& final(self).suppressed_silence_chunks == old(
                        self,
                    ).suppressed_silence_chunks
                    &&& final(self).batch_samples@ == old(self).batch_samples@ + samples@
                    &&& final(self).batch_chunks == old(self).batch_chunks + 1
                    &&& decision.flush == (final(self).batch_chunks >= MAX_AUDIO_BATCH_CHUNKS)
                })
            },
    {
        if samples.len() == 0 {
            return ChunkDecision {
                voice_activity: false,
                suppressed: false,
                log_suppression: false,
                flush: false,
            };
        }
        let voice_activity = detect_voice_activity(samples.as_slice());
        if self.suppression_enabled && is_silent_chunk(samples.as_slice()) {
            self.silent_streak = self.silent_streak + 1;
            if self.silent_streak > SILENCE_CHUNK_GRACE {
                self.suppressed_silence_chunks = self.suppressed_silence_chunks + 1;
                let log_suppression = self.suppressed_silence_chunks % SILENCE_SUPPRESS_LOG_EVERY
                    == 0;
                return ChunkDecision {
                    voice_activity,
                    suppressed: true,
                    log_suppression,
                    flush: false,
                };
            }
        } else {
            self.silent_streak = 0;
        }
        self.batch_samples.extend_from_slice(samples.as_slice());
        self.batch_chunks = self.batch_chunks + 1;
        ChunkDecision {
            voice_activity,
            suppressed: false,
            log_suppression: false,
            flush: self.batch_chunks >= MAX_AUDIO_BATCH_CHUNKS,
        }
    }

    /// Hands the accumulated batch out for sending and clears it.
    pub fn take_batch(&mut self) -> (r: (Vec<i16>, usize))
        ensures
            r.0 == old(self).batch_samples,
            r.1 == old(self).batch_chunks,
            final(self).batch_samples@ == Seq::<i16>::empty(),
            final(self).batch_chunks == 0,
            final(self).silent_streak == old(self).silent_streak,
            final(self).suppressed_silence_chunks == old(self).suppressed_silence_chunks,
            final(self).suppression_enabled == old(self).suppression_enabled,
    {
        let mut samples: Vec<i16> = Vec::new();
        std::mem::swap(&mut samples, &mut self.batch_samples);
        let chunks = self.batch_chunks;
        self.batch_chunks = 0;
        (samples, chunks)
    }
}

} // verus!
