//! Segment records and the borrowed-style segment view.
//!
//! A segment is a contiguous span of recognized speech. After a
//! whole-pipeline run the engine answers, per segment index, for the
//! timestamps, the speaker-turn flag, the no-speech probability, the text
//! and the tokens. A [`SegmentRecord`] carries those replies as plain
//! values; a [`WhisperSegment`] names one segment of a decoding state and
//! answers from the record, with the token count cached at construction and
//! used as the bound for token indexing.

use vstd::prelude::*;

use crate::error::WhisperError;
use crate::text::{
    bytes_result_view, decode_bytes, decode_str, decode_str_lossy, spec_to_bytes, spec_to_str,
    spec_to_str_lossy, str_result_view, text_view,
};
use crate::token::{TokenRecord, TokenValue, WhisperToken};

verus! {

/// Everything the engine reports about one segment after a pipeline run.
#[derive(Debug, PartialEq, Eq)]
pub struct SegmentRecord {
    /// Start time of the segment, in centiseconds.
    pub t0: i64,
    /// End time of the segment, in centiseconds.
    pub t1: i64,
    /// Whether the next segment is predicted as a speaker turn.
    pub speaker_turn_next: bool,
    /// The no-speech probability (bit pattern of an `f32`).
    pub no_speech_prob: u32,
    /// The segment's text reply; `None` stands for a null pointer.
    pub text: Option<Vec<u8>>,
    /// The engine's replies for each token of the segment, in token order.
    pub tokens: Vec<TokenRecord>,
}

/// The mathematical value of a [`SegmentRecord`].
pub struct SegmentValue {
    /// Start time of the segment, in centiseconds.
    pub t0: i64,
    /// End time of the segment, in centiseconds.
    pub t1: i64,
    /// Whether the next segment is predicted as a speaker turn.
    pub speaker_turn_next: bool,
    /// The no-speech probability (bit pattern of an `f32`).
    pub no_speech_prob: u32,
    /// The segment's text reply.
    pub text: Option<Seq<u8>>,
    /// The values of the segment's token records, in token order.
    pub tokens: Seq<TokenValue>,
}

impl View for SegmentRecord {
    type V = SegmentValue;

    open spec fn view(&self) -> SegmentValue {
        SegmentValue {
            t0: self.t0,
            t1: self.t1,
            speaker_turn_next: self.speaker_turn_next,
            no_speech_prob: self.no_speech_prob,
            text: text_view(self.text),
            tokens: self.tokens@.map_values(|t: TokenRecord| t@),
        }
    }
}

impl Clone for SegmentRecord {
    fn clone(&self) -> (r: Self)
        ensures
            r@ == self@,
    {
        let mut tokens: Vec<TokenRecord> = Vec::new();
        let mut i: usize = 0;
        while i < self.tokens.len()
            invariant
                i <= self.tokens@.len(),
                tokens@.len() == i,
                forall|j: int| 0 <= j < i ==> tokens@[j]@ == self.tokens@[j]@,
            decreases self.tokens@.len() - i,
        {
            tokens.push(self.tokens[i].clone());
            i = i + 1;
        }
        let r = SegmentRecord {
            t0: self.t0,
            t1: self.t1,
            speaker_turn_next: self.speaker_turn_next,
            no_speech_prob: self.no_speech_prob,
            text: match &self.text {
                None => None,
                Some(b) => Some(crate::text::clone_bytes(b)),
            },
            tokens,
        };
        assert(r@.tokens =~= self@.tokens) by {
            assert forall|j: int| 0 <= j < self.tokens@.len() implies r@.tokens[j]
                == self@.tokens[j] by {
                assert(r@.tokens[j] == r.tokens@[j]@);
                assert(self@.tokens[j] == self.tokens@[j]@);
            }
        };
        r
    }
}

/// A view of one segment of a decoding state's result.
///
/// The view holds the segment's index and a copy of the engine's replies
/// for it. The token count is cached at construction and pins the bound
/// used for token indexing.
#[derive(Debug)]
pub struct WhisperSegment {
    segment_idx: i32,
    token_count: i32,
    record: SegmentRecord,
}

impl WhisperSegment {
    /// A view over the given record; used by the state's navigation.
    ///
    /// The record must come from a transcript, so its token list fits the
    /// engine's signed-int count.
    pub(crate) fn from_record(segment_idx: i32, record: SegmentRecord) -> (r: WhisperSegment)
        requires
            record.tokens@.len() <= i32::MAX,
        ensures
            r.spec_segment_idx() == segment_idx,
            r.record() == record@,
            r.spec_n_tokens() == record@.tokens.len(),
    {
        let token_count: i32 = record.tokens.len() as i32;
        WhisperSegment { segment_idx, token_count, record }
    }

    /// The index this view names inside its state.
    pub closed spec fn spec_segment_idx(&self) -> i32 {
        self.segment_idx
    }

    /// The token count cached at construction.
    pub closed spec fn spec_n_tokens(&self) -> i32 {
        self.token_count
    }

    /// The engine replies this view answers from.
    pub closed spec fn record(&self) -> SegmentValue {
        self.record@
    }

    /// Whether a view is internally consistent: the cached token count is
    /// the length of the token list it was built from.
    pub open spec fn wf(&self) -> bool {
        self.spec_n_tokens() == self.record().tokens.len()
    }

    /// Get the index of this segment.
    pub fn segment_index(&self) -> (r: i32)
        ensures
            r == self.spec_segment_idx(),
    {
        self.segment_idx
    }

    /// Get the start time of this segment, in centiseconds.
    pub fn start_timestamp(&self) -> (r: i64)
        ensures
            r == self.record().t0,
    {
        self.record.t0
    }

    /// Get the end time of this segment, in centiseconds.
    pub fn end_timestamp(&self) -> (r: i64)
        ensures
            r == self.record().t1,
    {
        self.record.t1
    }

    /// Get the number of tokens in this segment (the cached count).
    pub fn n_tokens(&self) -> (r: i32)
        ensures
            r == self.spec_n_tokens(),
    {
        self.token_count
    }

    /// Get whether the next segment is predicted as a speaker turn.
    pub fn next_segment_speaker_turn(&self) -> (r: bool)
        ensures
            r == self.record().speaker_turn_next,
    {
        self.record.speaker_turn_next
    }

    /// Get the no-speech probability for this segment, as the bit pattern
    /// of the engine's 32-bit float.
    pub fn no_speech_probability(&self) -> (r: u32)
        ensures
            r == self.record().no_speech_prob,
    {
        self.record.no_speech_prob
    }

    /// Get the raw bytes of this segment, without a terminator.
    ///
    /// Fails with `NullPointer` exactly when the engine's text reply was
    /// null.
    pub fn to_bytes(&self) -> (r: Result<Vec<u8>, WhisperError>)
        ensures
            bytes_result_view(r) == spec_to_bytes(self.record().text),
    {
        decode_bytes(&self.record.text)
    }

    /// Get the text of this segment as a validated string.
    ///
    /// Fails with `NullPointer` on a null reply and with `InvalidUtf8` when
    /// the reply is not valid UTF-8.
    pub fn to_str(&self) -> (r: Result<String, WhisperError>)
        ensures
            str_result_view(r) == spec_to_str(self.record().text),
    {
        decode_str(&self.record.text)
    }

    /// Get the text of this segment, substituting the replacement character
    /// for invalid UTF-8.
    ///
    /// Fails only with `NullPointer`, exactly on a null reply.
    pub fn to_str_lossy(&self) -> (r: Result<String, WhisperError>)
        ensures
            str_result_view(r) == spec_to_str_lossy(self.record().text),
    {
        decode_str_lossy(&self.record.text)
    }

    /// Whether a token index is within the cached bound.
    pub open spec fn spec_token_in_bounds(&self, token: i32) -> bool {
        0 <= token < self.spec_n_tokens()
    }

    /// Get a view of the token at the given index, or nothing when the
    /// index is outside the cached bound.
    pub fn get_token(&self, token: i32) -> (r: Option<WhisperToken>)
        requires
            self.wf(),
        ensures
            r is Some <==> self.spec_token_in_bounds(token),
            r matches Some(t) ==> t.spec_token_idx() == token && t.record() == self.record().tokens[
                token as int],
    {
        if 0 <= token && token < self.token_count {
            Some(self.get_token_unchecked(token))
        } else {
            None
        }
    }

    /// Get a view of the token at the given index, without the bounds test;
    /// the caller must guarantee the index is within the cached bound.
    pub fn get_token_unchecked(&self, token: i32) -> (r: WhisperToken)
        requires
            self.wf(),
            self.spec_token_in_bounds(token),
        ensures
            r.spec_token_idx() == token,
            r.record() == self.record().tokens[token as int],
    {
        let record = self.record.tokens[token as usize].clone();
        WhisperToken::from_record(token, record)
    }
}

} // verus!
