//! Safe, contract-checked core of a binding over a native speech-recognition
//! engine (a Whisper transcription model plus a voice-activity-detection
//! model).
//!
//! The engine itself is a foreign native library reached through raw C calls;
//! those calls, and all floating-point arithmetic, live outside this crate's
//! verified code. What is verified here is everything the binding itself
//! decides: the closed error taxonomy and the mapping of engine return codes
//! onto it, the pre-call validation that must happen before the engine may be
//! invoked, the bounded index-and-iteration model over transcription results,
//! the three-way text decoding policy for engine byte strings, parameter
//! defaults, and the pure audio-conversion arithmetic.
//!
//! Engine-reported quantities that are IEEE-754 `f32` values in the native
//! interface (probabilities, voice-activity timestamps) are carried through
//! this crate as their raw `u32` bit patterns; callers convert at the boundary
//! with `f32::from_bits` / `f32::to_bits`.

pub mod context;
pub mod error;
pub mod iterator;
pub mod params;
pub mod segment;
pub mod state;
pub mod text;
pub mod token;
pub mod utilities;
pub mod vad;

pub use context::{WhisperContext, WhisperInnerContext};
pub use error::WhisperError;
pub use iterator::WhisperStateSegmentIterator;
pub use params::{
    DtwMode, DtwModelPreset, FullParams, SamplingStrategy, WhisperContextParameters,
};
pub use segment::{SegmentRecord, WhisperSegment};
pub use state::WhisperState;
pub use token::{TokenRecord, WhisperToken, WhisperTokenData, WhisperTokenId};
pub use utilities::{convert_integer_to_float_audio, convert_stereo_to_mono_check};
pub use vad::{
    WhisperVadContext, WhisperVadContextParams, WhisperVadParams, WhisperVadSegment,
    WhisperVadSegments,
};
