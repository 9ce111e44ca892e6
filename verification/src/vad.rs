//! The voice-activity-detection subsystem.
//!
//! VAD is a separate pair of types mirroring the engine's partition: a
//! context that runs detection over samples, and an owned, counted container
//! of the resulting speech segments. The two share nothing with the
//! transcription subsystem.
//!
//! The engine reports VAD thresholds, overlaps and timestamps as 32-bit
//! floats; they are carried here as their IEEE-754 bit patterns, `u32`
//! values that callers convert with `f32::from_bits` / `f32::to_bits`.

use vstd::prelude::*;

use crate::error::WhisperError;

verus! {

/// Bit pattern of the 32-bit float one half (0.5): the default speech
/// threshold.
pub const VAD_DEFAULT_THRESHOLD: u32 = 0x3F00_0000;

/// Bit pattern of the largest finite 32-bit float: the default maximum
/// speech duration, in seconds.
pub const VAD_DEFAULT_MAX_SPEECH_DURATION: u32 = 0x7F7F_FFFF;

/// Bit pattern of the 32-bit float nearest one tenth (0.1): the default
/// samples overlap, in seconds.
pub const VAD_DEFAULT_SAMPLES_OVERLAP: u32 = 0x3DCC_CCCD;

/// Configuration for voice activity detection.
#[derive(Debug, Clone, Copy, PartialEq, Eq, Structural)]
pub struct WhisperVadParams {
    /// Probability threshold to consider as speech (bit pattern of an
    /// `f32`).
    pub threshold: u32,
    /// Minimum duration of a valid speech segment, in milliseconds.
    pub min_speech_duration_ms: i32,
    /// Minimum silence duration to consider speech as ended, in
    /// milliseconds.
    pub min_silence_duration_ms: i32,
    /// Maximum duration of a speech segment before a forced split, in
    /// seconds (bit pattern of an `f32`).
    pub max_speech_duration_s: u32,
    /// Padding added before and after speech segments, in milliseconds.
    pub speech_pad_ms: i32,
    /// Overlap extended from each speech segment into the next, in seconds
    /// (bit pattern of an `f32`).
    pub samples_overlap: u32,
}

impl Default for WhisperVadParams {
    /// The engine's default detection parameters.
    fn default() -> (r: Self)
        ensures
            r.threshold == VAD_DEFAULT_THRESHOLD,
            r.min_speech_duration_ms == 250,
            r.min_silence_duration_ms == 100,
            r.max_speech_duration_s == VAD_DEFAULT_MAX_SPEECH_DURATION,
            r.speech_pad_ms == 30,
            r.samples_overlap == VAD_DEFAULT_SAMPLES_OVERLAP,
    {
        WhisperVadParams {
            threshold: VAD_DEFAULT_THRESHOLD,
            min_speech_duration_ms: 250,
            min_silence_duration_ms: 100,
            max_speech_duration_s: VAD_DEFAULT_MAX_SPEECH_DURATION,
            speech_pad_ms: 30,
            samples_overlap: VAD_DEFAULT_SAMPLES_OVERLAP,
        }
    }
}

impl WhisperVadParams {
    /// The engine's default detection parameters.
    pub fn new() -> (r: Self)
        ensures
            r.threshold == VAD_DEFAULT_THRESHOLD,
            r.min_speech_duration_ms == 250,
            r.min_silence_duration_ms == 100,
            r.max_speech_duration_s == VAD_DEFAULT_MAX_SPEECH_DURATION,
            r.speech_pad_ms == 30,
            r.samples_overlap == VAD_DEFAULT_SAMPLES_OVERLAP,
    {
        Self::default()
    }

    /// Set the probability threshold to consider as speech (bit pattern of
    /// an `f32`).
    pub fn set_threshold(&mut self, threshold: u32)
        ensures
            *final(self) == (WhisperVadParams { threshold, ..*old(self) }),
    {
        self.threshold = threshold;
    }

    /// Set the minimum duration for a valid speech segment, in
    /// milliseconds.
    pub fn set_min_speech_duration(&mut self, min_speech_duration: i32)
        ensures
            *final(self) == (WhisperVadParams {
                min_speech_duration_ms: min_speech_duration,
                ..*old(self)
            }),
    {
        self.min_speech_duration_ms = min_speech_duration;
    }

    /// Set the minimum silence duration to consider speech as ended, in
    /// milliseconds.
    pub fn set_min_silence_duration(&mut self, min_silence_duration: i32)
        ensures
            *final(self) == (WhisperVadParams {
                min_silence_duration_ms: min_silence_duration,
                ..*old(self)
            }),
    {
        self.min_silence_duration_ms = min_silence_duration;
    }

    /// Set the maximum duration of a speech segment before a forced split,
    /// in seconds (bit pattern of an `f32`).
    pub fn set_max_speech_duration(&mut self, max_speech_duration: u32)
        ensures
            *final(self) == (WhisperVadParams {
                max_speech_duration_s: max_speech_duration,
                ..*old(self)
            }),
    {
        self.max_speech_duration_s = max_speech_duration;
    }

    /// Set the padding added before and after speech segments, in
    /// milliseconds.
    pub fn set_speech_pad(&mut self, speech_pad: i32)
        ensures
            *final(self) == (WhisperVadParams { speech_pad_ms: speech_pad, ..*old(self) }),
    {
        self.speech_pad_ms = speech_pad;
    }

    /// Set the overlap extended from each speech segment into the next, in
    /// seconds (bit pattern of an `f32`).
    pub fn set_samples_overlap(&mut self, samples_overlap: u32)
        ensures
            *final(self) == (WhisperVadParams { samples_overlap, ..*old(self) }),
    {
        self.samples_overlap = samples_overlap;
    }
}

/// Parameters for creating a VAD context.
#[derive(Debug, Clone, Copy, PartialEq, Eq, Structural)]
pub struct WhisperVadContextParams {
    /// Number of threads to use for processing.
    pub n_threads: i32,
    /// Whether to run detection on a GPU.
    pub use_gpu: bool,
    /// The GPU device to use when `use_gpu` is set.
    pub gpu_device: i32,
}

impl Default for WhisperVadContextParams {
    /// The engine's default context parameters.
    fn default() -> (r: Self)
        ensures
            r.n_threads == 4,
            !r.use_gpu,
            r.gpu_device == 0,
    {
        WhisperVadContextParams { n_threads: 4, use_gpu: false, gpu_device: 0 }
    }
}

impl WhisperVadContextParams {
    /// The engine's default context parameters.
    pub fn new() -> (r: Self)
        ensures
            r.n_threads == 4,
            !r.use_gpu,
            r.gpu_device == 0,
    {
        Self::default()
    }

    /// Set the number of threads to use for processing.
    pub fn set_n_threads(&mut self, n_threads: i32)
        ensures
            *final(self) == (WhisperVadContextParams { n_threads, ..*old(self) }),
    {
        self.n_threads = n_threads;
    }

    /// Set whether to run detection on a GPU.
    pub fn set_use_gpu(&mut self, use_gpu: bool)
        ensures
            *final(self) == (WhisperVadContextParams { use_gpu, ..*old(self) }),
    {
        self.use_gpu = use_gpu;
    }

    /// Set the GPU device to use when the GPU is enabled.
    pub fn set_gpu_device(&mut self, gpu_device: i32)
        ensures
            *final(self) == (WhisperVadContextParams { gpu_device, ..*old(self) }),
    {
        self.gpu_device = gpu_device;
    }
}

/// One detected speech span, bounded by timestamps in centiseconds
/// (bit patterns of the engine's 32-bit floats).
#[derive(Debug, Clone, Copy, PartialEq, Eq, Structural)]
pub struct WhisperVadSegment {
    /// Start timestamp of this segment, in centiseconds (bit pattern of an
    /// `f32`).
    pub start: u32,
    /// End timestamp of this segment, in centiseconds (bit pattern of an
    /// `f32`).
    pub end: u32,
}

/// A handle for running the engine's voice activity detection.
///
/// Detection runs mutate internal buffers, so the context requires
/// exclusive access; it carries the probability buffer of the last
/// detection run as plain values.
#[derive(Debug)]
pub struct WhisperVadContext {
    probs: Vec<u32>,
}

impl WhisperVadContext {
    /// The per-frame speech probabilities of the last accepted detection
    /// run (bit patterns of 32-bit floats).
    pub closed spec fn spec_probs(&self) -> Seq<u32> {
        self.probs@
    }

    /// Accept the engine's reply to loading a VAD model: whether the
    /// returned context handle was non-null.
    ///
    /// Fails with `NullPointer` exactly on a null handle; a fresh context
    /// has an empty probability buffer.
    pub fn new(handle: bool) -> (r: Result<WhisperVadContext, WhisperError>)
        ensures
            r is Ok <==> handle,
            !handle ==> r == Err::<WhisperVadContext, WhisperError>(WhisperError::NullPointer),
            r matches Ok(ctx) ==> ctx.spec_probs() == Seq::<u32>::empty(),
    {
        if handle {
            let ctx = WhisperVadContext { probs: Vec::new() };
            assert(ctx.spec_probs() =~= Seq::<u32>::empty());
            Ok(ctx)
        } else {
            Err(WhisperError::NullPointer)
        }
    }

    /// Accept the engine's reply to a detection run over samples: whether
    /// the run succeeded, and the probability buffer it cached (bit
    /// patterns of 32-bit floats).
    ///
    /// A failed run reports `GenericError` carrying -1 and leaves the
    /// context unchanged; a successful run replaces the carried buffer.
    pub fn detect_speech(&mut self, success: bool, probs: Vec<u32>) -> (r: Result<
        (),
        WhisperError,
    >)
        ensures
            !success ==> r == Err::<(), WhisperError>(WhisperError::GenericError(-1i32)),
            !success ==> *final(self) == *old(self),
            success ==> r is Ok && final(self).spec_probs() == probs@,
    {
        if success {
            self.probs = probs;
            Ok(())
        } else {
            Err(WhisperError::GenericError(-1))
        }
    }

    /// Get the probability buffer of the last accepted detection run (bit
    /// patterns of 32-bit floats).
    pub fn probabilities(&self) -> (r: &Vec<u32>)
        ensures
            r@ == self.spec_probs(),
    {
        &self.probs
    }

    /// Accept the engine's reply to turning cached probabilities into
    /// speech segments: the segment list, or `None` for a null pointer.
    ///
    /// Fails with `NullPointer` exactly on a null reply.
    pub fn segments_from_probabilities(&self, reply: Option<Vec<WhisperVadSegment>>) -> (r: Result<
        WhisperVadSegments,
        WhisperError,
    >)
        requires
            reply matches Some(segments) ==> segments@.len() <= i32::MAX,
        ensures
            r is Ok <==> reply is Some,
            reply is None ==> r == Err::<WhisperVadSegments, WhisperError>(
                WhisperError::NullPointer,
            ),
            reply matches Some(segments) ==> (r matches Ok(s) && s.spec_segments() == segments@
                && s.cursor() == 0),
    {
        match reply {
            None => Err(WhisperError::NullPointer),
            Some(segments) => Ok(WhisperVadSegments::new(segments)),
        }
    }

    /// Accept the engine's reply to the combined pipeline, detection over
    /// samples followed by segmentation; the contract is that of
    /// [`Self::segments_from_probabilities`].
    pub fn segments_from_samples(&self, reply: Option<Vec<WhisperVadSegment>>) -> (r: Result<
        WhisperVadSegments,
        WhisperError,
    >)
        requires
            reply matches Some(segments) ==> segments@.len() <= i32::MAX,
        ensures
            r is Ok <==> reply is Some,
            reply is None ==> r == Err::<WhisperVadSegments, WhisperError>(
                WhisperError::NullPointer,
            ),
            reply matches Some(segments) ==> (r matches Ok(s) && s.spec_segments() == segments@
                && s.cursor() == 0),
    {
        match reply {
            None => Err(WhisperError::NullPointer),
            Some(segments) => Ok(WhisperVadSegments::new(segments)),
        }
    }
}

/// The speech segments of one detection run, with the count cached at
/// construction; indexable, and iterable by an internal cursor that stops
/// at the cached bound.
#[derive(Debug)]
pub struct WhisperVadSegments {
    segments: Vec<WhisperVadSegment>,
    segment_count: i32,
    iter_idx: i32,
}

impl WhisperVadSegments {
    /// The segments in the order the engine provided them.
    pub closed spec fn spec_segments(&self) -> Seq<WhisperVadSegment> {
        self.segments@
    }

    /// The next index the internal cursor will visit.
    pub closed spec fn cursor(&self) -> i32 {
        self.iter_idx
    }

    /// The count cached at construction.
    pub closed spec fn spec_count(&self) -> i32 {
        self.segment_count
    }

    /// Whether the container is internally consistent: the cached count is
    /// the number of segments and the cursor has not gone negative.
    pub open spec fn wf(&self) -> bool {
        &&& self.spec_count() == self.spec_segments().len()
        &&& 0 <= self.cursor()
    }

    /// Own the given segment list, caching its count.
    pub(crate) fn new(segments: Vec<WhisperVadSegment>) -> (r: WhisperVadSegments)
        requires
            segments@.len() <= i32::MAX,
        ensures
            r.spec_segments() == segments@,
            r.cursor() == 0,
            r.wf(),
    {
        let segment_count: i32 = segments.len() as i32;
        WhisperVadSegments { segments, segment_count, iter_idx: 0 }
    }

    /// The number of detected segments (the cached count).
    pub fn num_segments(&self) -> (r: i32)
        ensures
            r == self.spec_count(),
    {
        self.segment_count
    }

    /// Whether an index names a detected segment.
    pub fn index_in_bounds(&self, idx: i32) -> (r: bool)
        ensures
            r == (0 <= idx < self.spec_count()),
    {
        0 <= idx && idx < self.segment_count
    }

    /// Return the start timestamp of a segment in centiseconds (bit
    /// pattern of an `f32`), or nothing when the index is out of bounds.
    pub fn get_segment_start_timestamp(&self, idx: i32) -> (r: Option<u32>)
        requires
            self.wf(),
        ensures
            r is Some <==> 0 <= idx < self.spec_segments().len(),
            r matches Some(t) ==> t == self.spec_segments()[idx as int].start,
    {
        if self.index_in_bounds(idx) {
            Some(self.segments[idx as usize].start)
        } else {
            None
        }
    }

    /// Return the end timestamp of a segment in centiseconds (bit pattern
    /// of an `f32`), or nothing when the index is out of bounds.
    pub fn get_segment_end_timestamp(&self, idx: i32) -> (r: Option<u32>)
        requires
            self.wf(),
        ensures
            r is Some <==> 0 <= idx < self.spec_segments().len(),
            r matches Some(t) ==> t == self.spec_segments()[idx as int].end,
    {
        if self.index_in_bounds(idx) {
            Some(self.segments[idx as usize].end)
        } else {
            None
        }
    }

    /// Return a segment's timestamps, or nothing when the index is out of
    /// bounds.
    pub fn get_segment(&self, idx: i32) -> (r: Option<WhisperVadSegment>)
        requires
            self.wf(),
        ensures
            r is Some <==> 0 <= idx < self.spec_segments().len(),
            r matches Some(s) ==> s == self.spec_segments()[idx as int],
    {
        match self.get_segment_start_timestamp(idx) {
            None => None,
            Some(start) => match self.get_segment_end_timestamp(idx) {
                None => None,
                Some(end) => Some(WhisperVadSegment { start, end }),
            },
        }
    }

    /// Yield the segment at the internal cursor and advance, or yield
    /// nothing once the cursor has left the segments.
    pub fn next(&mut self) -> (r: Option<WhisperVadSegment>)
        requires
            old(self).wf(),
        ensures
            final(self).wf(),
            final(self).spec_segments() == old(self).spec_segments(),
            old(self).cursor() < old(self).spec_segments().len() ==> (r matches Some(s)
                && s == old(self).spec_segments()[old(self).cursor() as int]
                && final(self).cursor() == old(self).cursor() + 1),
            old(self).cursor() >= old(self).spec_segments().len() ==> (r is None
                && final(self).cursor() == old(self).cursor()),
    {
        if (self.iter_idx as usize) < self.segments.len() {
            let idx = self.iter_idx;
            let segment = self.segments[idx as usize];
            self.iter_idx = idx + 1;
            Some(segment)
        } else {
            None
        }
    }
}

} // verus!
