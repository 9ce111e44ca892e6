//! The decoding state and the transcription pipeline's decisions.
//!
//! A decoding state co-owns its model context and carries the transcript the
//! engine produced for the last whole-pipeline run. Every pipeline operation
//! splits into the two decisions the binding itself makes around the foreign
//! call: a *precheck* that says whether the engine may be invoked at all
//! (thread counts below one and empty sample buffers are rejected before any
//! call), and an *accept* that maps the engine's integer return onto the
//! error taxonomy. The caller making the foreign call invokes the engine
//! only after the precheck returned `Ok`, and hands the reply to the accept.
//!
//! Sample buffers and mel data are 32-bit floats at the engine boundary;
//! the decisions here depend only on their lengths, so the prechecks take
//! the lengths.

use std::sync::Arc;

use vstd::prelude::*;

use crate::context::{ContextValue, WhisperInnerContext};
use crate::error::WhisperError;
use crate::iterator::WhisperStateSegmentIterator;
use crate::segment::{SegmentRecord, SegmentValue, WhisperSegment};

verus! {

/// The number of samples of one mel hop: a frame of the spectrogram stands
/// for this many samples.
pub const MEL_HOP_SIZE: usize = 160;

/// The number of mel bins the engine expects in a custom spectrogram.
pub const MEL_BINS: usize = 80;

/// What a pipeline precheck decides for a requested thread count: counts
/// below one are rejected before the engine is invoked.
pub open spec fn spec_thread_check(threads: usize) -> Result<(), WhisperError> {
    if threads < 1 {
        Err(WhisperError::InvalidThreadCount)
    } else {
        Ok(())
    }
}

/// What the whole-pipeline precheck decides for a sample count: an empty
/// buffer is rejected before the engine is invoked, since the engine is
/// documented to be crash-prone on one.
pub open spec fn spec_full_precheck(n_samples: usize) -> Result<(), WhisperError> {
    if n_samples == 0 {
        Err(WhisperError::NoSamples)
    } else {
        Ok(())
    }
}

/// How a spectrogram computation's return status is mapped.
pub open spec fn spec_pcm_to_mel_status(status: i32) -> Result<(), WhisperError> {
    if status == -1 {
        Err(WhisperError::UnableToCalculateSpectrogram)
    } else if status == 0 {
        Ok(())
    } else {
        Err(WhisperError::GenericError(status))
    }
}

/// How a custom-spectrogram upload's return status is mapped.
pub open spec fn spec_set_mel_status(status: i32) -> Result<(), WhisperError> {
    if status == -1 {
        Err(WhisperError::InvalidMelBands)
    } else if status == 0 {
        Ok(())
    } else {
        Err(WhisperError::GenericError(status))
    }
}

/// How an encoder or decoder evaluation's return status is mapped.
pub open spec fn spec_evaluation_status(status: i32) -> Result<(), WhisperError> {
    if status == -1 {
        Err(WhisperError::UnableToCalculateEvaluation)
    } else if status == 0 {
        Ok(())
    } else {
        Err(WhisperError::GenericError(status))
    }
}

/// How a whole-pipeline run's return status is mapped: the engine names
/// the spectrogram, encode and decode failures specifically.
pub open spec fn spec_full_status(status: i32) -> Result<i32, WhisperError> {
    if status == -1 {
        Err(WhisperError::UnableToCalculateSpectrogram)
    } else if status == 7 {
        Err(WhisperError::FailedToEncode)
    } else if status == 8 {
        Err(WhisperError::FailedToDecode)
    } else if status == 0 {
        Ok(0)
    } else {
        Err(WhisperError::GenericError(status))
    }
}

/// A decoding state: one per-invocation engine handle, co-owning its model.
///
/// The state carries the transcript of the last successful whole-pipeline
/// run as plain values; segment and token views answer from it.
#[derive(Debug)]
pub struct WhisperState {
    ctx: Arc<WhisperInnerContext>,
    segments: Vec<SegmentRecord>,
}

impl WhisperState {
    /// The model description this state decodes with.
    pub closed spec fn model(&self) -> ContextValue {
        self.ctx@
    }

    /// The transcript of the last accepted whole-pipeline run.
    pub closed spec fn transcript(&self) -> Seq<SegmentValue> {
        self.segments@.map_values(|s: SegmentRecord| s@)
    }

    /// Whether the carried transcript fits the engine's signed-int counts:
    /// segment and per-segment token counts stay within bounds.
    pub open spec fn wf(&self) -> bool {
        &&& self.transcript().len() <= i32::MAX
        &&& forall|i: int|
            0 <= i < self.transcript().len() ==> (#[trigger] self.transcript()[i]).tokens.len()
                <= i32::MAX
    }

    /// A fresh state over the given model share, with an empty transcript.
    pub(crate) fn fresh(ctx: Arc<WhisperInnerContext>) -> (r: WhisperState)
        ensures
            r.model() == ctx@,
            r.transcript() == Seq::<SegmentValue>::empty(),
            r.wf(),
    {
        let r = WhisperState { ctx, segments: Vec::new() };
        assert(r.transcript() =~= Seq::<SegmentValue>::empty());
        r
    }

    /// Decide whether a spectrogram computation may invoke the engine:
    /// thread counts below one are rejected, and the engine must not be
    /// called.
    pub fn pcm_to_mel_precheck(&self, threads: usize) -> (r: Result<(), WhisperError>)
        ensures
            r == spec_thread_check(threads),
    {
        if threads < 1 {
            Err(WhisperError::InvalidThreadCount)
        } else {
            Ok(())
        }
    }

    /// Accept the engine's return status for a spectrogram computation.
    pub fn pcm_to_mel_accept(&self, status: i32) -> (r: Result<(), WhisperError>)
        ensures
            r == spec_pcm_to_mel_status(status),
    {
        if status == -1 {
            Err(WhisperError::UnableToCalculateSpectrogram)
        } else if status == 0 {
            Ok(())
        } else {
            Err(WhisperError::GenericError(status))
        }
    }

    /// The frame count and mel-bin count handed to the engine for a custom
    /// spectrogram of the given length: two frames per hop of samples, at
    /// the fixed bin count.
    pub fn set_mel_request(&self, data_len: usize) -> (r: (usize, usize))
        ensures
            r.0 == (data_len as int / MEL_HOP_SIZE as int) * 2,
            r.1 == MEL_BINS,
    {
        ((data_len / MEL_HOP_SIZE) * 2, MEL_BINS)
    }

    /// Accept the engine's return status for a custom-spectrogram upload.
    pub fn set_mel_accept(&self, status: i32) -> (r: Result<(), WhisperError>)
        ensures
            r == spec_set_mel_status(status),
    {
        if status == -1 {
            Err(WhisperError::InvalidMelBands)
        } else if status == 0 {
            Ok(())
        } else {
            Err(WhisperError::GenericError(status))
        }
    }

    /// Decide whether an encoder run may invoke the engine: thread counts
    /// below one are rejected, and the engine must not be called.
    pub fn encode_precheck(&self, threads: usize) -> (r: Result<(), WhisperError>)
        ensures
            r == spec_thread_check(threads),
    {
        if threads < 1 {
            Err(WhisperError::InvalidThreadCount)
        } else {
            Ok(())
        }
    }

    /// Accept the engine's return status for an encoder run.
    pub fn encode_accept(&self, status: i32) -> (r: Result<(), WhisperError>)
        ensures
            r == spec_evaluation_status(status),
    {
        if status == -1 {
            Err(WhisperError::UnableToCalculateEvaluation)
        } else if status == 0 {
            Ok(())
        } else {
            Err(WhisperError::GenericError(status))
        }
    }

    /// Decide whether a decoder run may invoke the engine: thread counts
    /// below one are rejected, and the engine must not be called.
    pub fn decode_precheck(&self, threads: usize) -> (r: Result<(), WhisperError>)
        ensures
            r == spec_thread_check(threads),
    {
        if threads < 1 {
            Err(WhisperError::InvalidThreadCount)
        } else {
            Ok(())
        }
    }

    /// Accept the engine's return status for a decoder run.
    pub fn decode_accept(&self, status: i32) -> (r: Result<(), WhisperError>)
        ensures
            r == spec_evaluation_status(status),
    {
        if status == -1 {
            Err(WhisperError::UnableToCalculateEvaluation)
        } else if status == 0 {
            Ok(())
        } else {
            Err(WhisperError::GenericError(status))
        }
    }

    /// Decide whether a language-detection run may invoke the engine:
    /// thread counts below one are rejected, and the engine must not be
    /// called.
    pub fn lang_detect_precheck(&self, threads: usize) -> (r: Result<(), WhisperError>)
        ensures
            r == spec_thread_check(threads),
    {
        if threads < 1 {
            Err(WhisperError::InvalidThreadCount)
        } else {
            Ok(())
        }
    }

    /// Accept the engine's reply to a language-detection run: the return
    /// status and the per-language probability buffer the engine filled
    /// (32-bit floats, carried as their bit patterns).
    ///
    /// A negative status becomes `GenericError`; otherwise the status is
    /// the detected language id and is returned with the probabilities.
    pub fn lang_detect_accept(&self, status: i32, lang_probs: Vec<u32>) -> (r: Result<
        (i32, Vec<u32>),
        WhisperError,
    >)
        ensures
            status < 0 ==> r == Err::<(i32, Vec<u32>), WhisperError>(
                WhisperError::GenericError(status),
            ),
            status >= 0 ==> (r matches Ok((id, probs)) && id == status && probs@ == lang_probs@),
    {
        if status < 0 {
            Err(WhisperError::GenericError(status))
        } else {
            Ok((status, lang_probs))
        }
    }

    /// Accept the engine's reply to a logits request: the logits buffer,
    /// or `None` for a null pointer (32-bit floats, carried as their bit
    /// patterns).
    ///
    /// Fails with `NullPointer` exactly on a null reply.
    pub fn get_logits(&self, reply: Option<Vec<u32>>) -> (r: Result<Vec<u32>, WhisperError>)
        ensures
            reply is None ==> r == Err::<Vec<u32>, WhisperError>(WhisperError::NullPointer),
            reply matches Some(logits) ==> (r matches Ok(l) && l@ == logits@),
    {
        match reply {
            None => Err(WhisperError::NullPointer),
            Some(logits) => Ok(logits),
        }
    }

    /// Get n_vocab of the co-owned model.
    pub fn n_vocab(&self) -> (r: i32)
        ensures
            r == self.model().n_vocab,
    {
        self.ctx.n_vocab
    }

    /// Decide whether a whole-pipeline run may invoke the engine: an empty
    /// sample buffer is rejected with `NoSamples`, and the engine must not
    /// be called.
    pub fn full_precheck(&self, n_samples: usize) -> (r: Result<(), WhisperError>)
        ensures
            r == spec_full_precheck(n_samples),
    {
        if n_samples == 0 {
            Err(WhisperError::NoSamples)
        } else {
            Ok(())
        }
    }

    /// Accept the engine's reply to a whole-pipeline run: the return status
    /// and, for a successful run, the transcript read back from the engine.
    ///
    /// On status zero the transcript replaces the carried one; on any other
    /// status the state is unchanged and the status is mapped onto the
    /// error taxonomy.
    pub fn full_accept(&mut self, status: i32, transcript: Vec<SegmentRecord>) -> (r: Result<
        i32,
        WhisperError,
    >)
        requires
            transcript@.len() <= i32::MAX,
            forall|i: int|
                0 <= i < transcript@.len() ==> (#[trigger] transcript@[i]).tokens@.len()
                    <= i32::MAX,
        ensures
            r == spec_full_status(status),
            final(self).model() == old(self).model(),
            status == 0 ==> final(self).transcript() == transcript@.map_values(
                |s: SegmentRecord| s@,
            ) && final(self).wf(),
            status != 0 ==> *final(self) == *old(self),
    {
        if status == -1 {
            Err(WhisperError::UnableToCalculateSpectrogram)
        } else if status == 7 {
            Err(WhisperError::FailedToEncode)
        } else if status == 8 {
            Err(WhisperError::FailedToDecode)
        } else if status == 0 {
            self.segments = transcript;
            assert forall|i: int| 0 <= i < self.transcript().len() implies (
            #[trigger] self.transcript()[i]).tokens.len() <= i32::MAX by {
                assert(self.transcript()[i] == self.segments@[i]@);
            }
            Ok(0)
        } else {
            Err(WhisperError::GenericError(status))
        }
    }

    /// Number of segments in the carried transcript.
    pub fn full_n_segments(&self) -> (r: i32)
        requires
            self.wf(),
        ensures
            r == self.transcript().len(),
    {
        self.segments.len() as i32
    }

    /// Whether a segment index is within the carried transcript.
    pub open spec fn spec_segment_in_bounds(&self, segment: i32) -> bool {
        0 <= segment < self.transcript().len()
    }

    /// Get a view of the segment at the given index, or nothing when the
    /// index is outside the carried transcript.
    pub fn get_segment(&self, segment: i32) -> (r: Option<WhisperSegment>)
        requires
            self.wf(),
        ensures
            r is Some <==> self.spec_segment_in_bounds(segment),
            r matches Some(s) ==> s.spec_segment_idx() == segment && s.record()
                == self.transcript()[segment as int] && s.wf(),
    {
        if 0 <= segment && (segment as usize) < self.segments.len() {
            Some(self.get_segment_unchecked(segment))
        } else {
            None
        }
    }

    /// Get a view of the segment at the given index, without the bounds
    /// test; the caller must guarantee the index is within the transcript.
    pub fn get_segment_unchecked(&self, segment: i32) -> (r: WhisperSegment)
        requires
            self.wf(),
            self.spec_segment_in_bounds(segment),
        ensures
            r.spec_segment_idx() == segment,
            r.record() == self.transcript()[segment as int],
            r.wf(),
    {
        let record = self.segments[segment as usize].clone();
        assert(record@ == self.transcript()[segment as int]);
        WhisperSegment::from_record(segment, record)
    }

    /// Get an iterator over all segments of the carried transcript,
    /// starting at index zero.
    pub fn as_iter(&self) -> (r: WhisperStateSegmentIterator)
        requires
            self.wf(),
        ensures
            r.transcript() == self.transcript(),
            r.cursor() == 0,
            r.wf(),
    {
        WhisperStateSegmentIterator::over(self)
    }

    /// Copy the carried transcript's records; used by the iterator.
    pub(crate) fn clone_segments(&self) -> (r: Vec<SegmentRecord>)
        ensures
            r@.map_values(|s: SegmentRecord| s@) == self.transcript(),
    {
        let mut out: Vec<SegmentRecord> = Vec::new();
        let mut i: usize = 0;
        while i < self.segments.len()
            invariant
                i <= self.segments@.len(),
                out@.len() == i,
                forall|j: int| 0 <= j < i ==> out@[j]@ == self.segments@[j]@,
            decreases self.segments@.len() - i,
        {
            out.push(self.segments[i].clone());
            i = i + 1;
        }
        assert(out@.map_values(|s: SegmentRecord| s@) =~= self.transcript()) by {
            assert forall|j: int| 0 <= j < self.segments@.len() implies out@.map_values(
                |s: SegmentRecord| s@,
            )[j] == self.transcript()[j] by {
                assert(out@.map_values(|s: SegmentRecord| s@)[j] == out@[j]@);
                assert(self.transcript()[j] == self.segments@[j]@);
            }
        };
        out
    }
}

} // verus!
