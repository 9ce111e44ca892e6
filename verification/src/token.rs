//! Token records and the borrowed-style token view.
//!
//! After a whole-pipeline run the engine can be asked, per segment and token
//! index, for a token's id, its data record, its probability and its text.
//! A [`TokenRecord`] carries those replies as plain values; a
//! [`WhisperToken`] names one token inside a segment view and answers the
//! same questions from the record.

use vstd::prelude::*;

use crate::error::WhisperError;
use crate::text::{
    bytes_result_view, decode_bytes, decode_str, decode_str_lossy, spec_to_bytes, spec_to_str,
    spec_to_str_lossy, str_result_view, text_view,
};

verus! {

/// A token id in the model's vocabulary.
pub type WhisperTokenId = i32;

/// The engine's per-token data record.
///
/// The engine reports `p`, `plog`, `pt`, `ptsum` and `vlen` as 32-bit floats;
/// they are carried here as their IEEE-754 bit patterns.
#[derive(Debug, Clone, Copy, PartialEq, Eq, Structural)]
pub struct WhisperTokenData {
    /// Token id.
    pub id: WhisperTokenId,
    /// Forced timestamp token id.
    pub tid: WhisperTokenId,
    /// Probability of the token (bit pattern of an `f32`).
    pub p: u32,
    /// Log probability of the token (bit pattern of an `f32`).
    pub plog: u32,
    /// Probability of the timestamp token (bit pattern of an `f32`).
    pub pt: u32,
    /// Sum of probabilities of all timestamp tokens (bit pattern of an `f32`).
    pub ptsum: u32,
    /// Start time of the token, in centiseconds.
    pub t0: i64,
    /// End time of the token, in centiseconds.
    pub t1: i64,
    /// Time-aligned (DTW) timestamp of the token, in centiseconds.
    pub t_dtw: i64,
    /// Voice length of the token (bit pattern of an `f32`).
    pub vlen: u32,
}

/// Everything the engine reports about one token of one segment.
#[derive(Debug, PartialEq, Eq)]
pub struct TokenRecord {
    /// The token's id.
    pub id: WhisperTokenId,
    /// The token's data record.
    pub data: WhisperTokenData,
    /// The token's probability (bit pattern of an `f32`).
    pub probability: u32,
    /// The token's text reply; `None` stands for a null pointer.
    pub text: Option<Vec<u8>>,
}

/// The mathematical value of a [`TokenRecord`].
pub struct TokenValue {
    /// The token's id.
    pub id: WhisperTokenId,
    /// The token's data record.
    pub data: WhisperTokenData,
    /// The token's probability (bit pattern of an `f32`).
    pub probability: u32,
    /// The token's text reply.
    pub text: Option<Seq<u8>>,
}

impl View for TokenRecord {
    type V = TokenValue;

    open spec fn view(&self) -> TokenValue {
        TokenValue {
            id: self.id,
            data: self.data,
            probability: self.probability,
            text: text_view(self.text),
        }
    }
}

impl Clone for TokenRecord {
    fn clone(&self) -> (r: Self)
        ensures
            r@ == self@,
    {
        TokenRecord {
            id: self.id,
            data: self.data,
            probability: self.probability,
            text: match &self.text {
                None => None,
                Some(b) => Some(crate::text::clone_bytes(b)),
            },
        }
    }
}

/// A view of one token inside a segment view.
///
/// The view holds the token's index and a copy of the engine's replies for
/// it; it stays answerable for as long as the caller keeps it.
#[derive(Debug)]
pub struct WhisperToken {
    token_idx: i32,
    record: TokenRecord,
}

impl WhisperToken {
    /// A view over the given record; used by the segment navigation.
    pub(crate) fn from_record(token_idx: i32, record: TokenRecord) -> (r: WhisperToken)
        ensures
            r.spec_token_idx() == token_idx,
            r.record() == record@,
    {
        WhisperToken { token_idx, record }
    }

    /// The index this view names inside its segment.
    pub closed spec fn spec_token_idx(&self) -> i32 {
        self.token_idx
    }

    /// The engine replies this view answers from.
    pub closed spec fn record(&self) -> TokenValue {
        self.record@
    }

    /// Get the token id of this token in its segment.
    pub fn token_id(&self) -> (r: WhisperTokenId)
        ensures
            r == self.record().id,
    {
        self.record.id
    }

    /// Get the data record for this token in its segment.
    pub fn token_data(&self) -> (r: WhisperTokenData)
        ensures
            r == self.record().data,
    {
        self.record.data
    }

    /// Get the probability of this token in its segment, as the bit pattern
    /// of the engine's 32-bit float.
    pub fn token_probability(&self) -> (r: u32)
        ensures
            r == self.record().probability,
    {
        self.record.probability
    }

    /// Get the raw bytes of this token, without a terminator.
    ///
    /// Fails with `NullPointer` exactly when the engine's text reply was
    /// null.
    pub fn to_bytes(&self) -> (r: Result<Vec<u8>, WhisperError>)
        ensures
            bytes_result_view(r) == spec_to_bytes(self.record().text),
    {
        decode_bytes(&self.record.text)
    }

    /// Get the text of this token as a validated string.
    ///
    /// Fails with `NullPointer` on a null reply and with `InvalidUtf8` when
    /// the reply is not valid UTF-8.
    pub fn to_str(&self) -> (r: Result<String, WhisperError>)
        ensures
            str_result_view(r) == spec_to_str(self.record().text),
    {
        decode_str(&self.record.text)
    }

    /// Get the text of this token, substituting the replacement character
    /// for invalid UTF-8.
    ///
    /// Fails only with `NullPointer`, exactly on a null reply.
    pub fn to_str_lossy(&self) -> (r: Result<String, WhisperError>)
        ensures
            str_result_view(r) == spec_to_str_lossy(self.record().text),
    {
        decode_str_lossy(&self.record.text)
    }
}

} // verus!
