//! The closed error taxonomy of the binding.
//!
//! Every fallible operation in the crate reports one of these values; no
//! other failure kind exists. Engine return codes that have no specific
//! mapping are surfaced as `GenericError` carrying the raw code.

use vstd::prelude::*;

verus! {

/// Every failure the binding can report.
#[derive(Debug, Clone, Copy, PartialEq, Eq)]
pub enum WhisperError {
    /// The engine returned null from a model or state constructor.
    InitError,
    /// The engine returned null where a non-null result was required.
    NullPointer,
    /// A byte string obtained from the engine is not valid UTF-8
    /// (reported only by the non-lossy decoders).
    InvalidUtf8,
    /// A conversion utility was handed input and output buffers whose
    /// lengths do not agree.
    InputOutputLengthMismatch { input_len: usize, output_len: usize },
    /// The stereo conversion was handed an odd number of interleaved
    /// samples; the value carries the offending input length.
    HalfSampleMissing(usize),
    /// A pipeline method was asked to run with fewer than one thread.
    InvalidThreadCount,
    /// The engine rejected a custom mel spectrogram.
    InvalidMelBands,
    /// The engine could not compute the mel spectrogram.
    UnableToCalculateSpectrogram,
    /// The engine's encoder or decoder evaluation failed.
    UnableToCalculateEvaluation,
    /// The whole-pipeline run failed while encoding.
    FailedToEncode,
    /// The whole-pipeline run failed while decoding.
    FailedToDecode,
    /// The whole-pipeline run was invoked on an empty sample buffer.
    NoSamples,
    /// Any other non-zero engine return, carrying the raw code.
    GenericError(i32),
}

} // verus!
