//! The model context: an immutable description of a loaded model, shared
//! read-only among decoding states.
//!
//! The engine owns the loaded model behind a raw handle; everything this
//! crate's logic ever reads from that handle — the introspection counts, the
//! special-token ids, the readable type label, the per-token vocabulary
//! texts — is carried here as plain values in a [`WhisperInnerContext`].
//! A [`WhisperContext`] wraps the inner context in an atomically refcounted
//! reference, so many decoding states can co-own one model; the wrapped
//! data is immutable through this interface.

use std::sync::Arc;

use vstd::prelude::*;

use crate::error::WhisperError;
use crate::state::WhisperState;
use crate::text::{
    bytes_result_view, decode_bytes, decode_str, decode_str_lossy, spec_to_bytes, spec_to_str,
    spec_to_str_lossy, str_result_view, text_view,
};
use crate::token::WhisperTokenId;

verus! {

/// Everything the engine reports about one loaded model.
///
/// A value of this type is assembled from the engine's replies when the
/// model is loaded, and never changes afterwards.
#[derive(Debug)]
pub struct WhisperInnerContext {
    /// Vocabulary size.
    pub n_vocab: i32,
    /// Audio context size.
    pub n_audio_ctx: i32,
    /// Text context size.
    pub n_text_ctx: i32,
    /// Model vocabulary size.
    pub model_n_vocab: i32,
    /// Model audio context size.
    pub model_n_audio_ctx: i32,
    /// Model audio state count.
    pub model_n_audio_state: i32,
    /// Model audio head count.
    pub model_n_audio_head: i32,
    /// Model audio layer count.
    pub model_n_audio_layer: i32,
    /// Model text context size.
    pub model_n_text_ctx: i32,
    /// Model text state count.
    pub model_n_text_state: i32,
    /// Model text head count.
    pub model_n_text_head: i32,
    /// Model text layer count.
    pub model_n_text_layer: i32,
    /// Model mel-bin count.
    pub model_n_mels: i32,
    /// Model float-type code.
    pub model_ftype: i32,
    /// Model type code.
    pub model_type: i32,
    /// Whether the model supports multiple languages.
    pub is_multilingual: bool,
    /// Id of the end-of-text token.
    pub token_eot: WhisperTokenId,
    /// Id of the start-of-text token.
    pub token_sot: WhisperTokenId,
    /// Id of the start-of-language-model token.
    pub token_solm: WhisperTokenId,
    /// Id of the previous-context token.
    pub token_prev: WhisperTokenId,
    /// Id of the no-speech token.
    pub token_nosp: WhisperTokenId,
    /// Id of the not token.
    pub token_not: WhisperTokenId,
    /// Id of the begin token.
    pub token_beg: WhisperTokenId,
    /// Id of the translate task token.
    pub token_translate: WhisperTokenId,
    /// Id of the transcribe task token.
    pub token_transcribe: WhisperTokenId,
    /// The language token for each language id, in language-id order.
    pub lang_tokens: Vec<WhisperTokenId>,
    /// The engine's readable model-type label; `None` stands for a null
    /// pointer.
    pub model_type_readable: Option<Vec<u8>>,
    /// The engine's text reply for each token id, in token-id order;
    /// `None` stands for a null pointer.
    pub vocab: Vec<Option<Vec<u8>>>,
}

/// The mathematical value of a [`WhisperInnerContext`].
pub struct ContextValue {
    /// Vocabulary size.
    pub n_vocab: i32,
    /// Audio context size.
    pub n_audio_ctx: i32,
    /// Text context size.
    pub n_text_ctx: i32,
    /// Model vocabulary size.
    pub model_n_vocab: i32,
    /// Model audio context size.
    pub model_n_audio_ctx: i32,
    /// Model audio state count.
    pub model_n_audio_state: i32,
    /// Model audio head count.
    pub model_n_audio_head: i32,
    /// Model audio layer count.
    pub model_n_audio_layer: i32,
    /// Model text context size.
    pub model_n_text_ctx: i32,
    /// Model text state count.
    pub model_n_text_state: i32,
    /// Model text head count.
    pub model_n_text_head: i32,
    /// Model text layer count.
    pub model_n_text_layer: i32,
    /// Model mel-bin count.
    pub model_n_mels: i32,
    /// Model float-type code.
    pub model_ftype: i32,
    /// Model type code.
    pub model_type: i32,
    /// Whether the model supports multiple languages.
    pub is_multilingual: bool,
    /// Id of the end-of-text token.
    pub token_eot: WhisperTokenId,
    /// Id of the start-of-text token.
    pub token_sot: WhisperTokenId,
    /// Id of the start-of-language-model token.
    pub token_solm: WhisperTokenId,
    /// Id of the previous-context token.
    pub token_prev: WhisperTokenId,
    /// Id of the no-speech token.
    pub token_nosp: WhisperTokenId,
    /// Id of the not token.
    pub token_not: WhisperTokenId,
    /// Id of the begin token.
    pub token_beg: WhisperTokenId,
    /// Id of the translate task token.
    pub token_translate: WhisperTokenId,
    /// Id of the transcribe task token.
    pub token_transcribe: WhisperTokenId,
    /// The language token for each language id.
    pub lang_tokens: Seq<WhisperTokenId>,
    /// The engine's readable model-type label.
    pub model_type_readable: Option<Seq<u8>>,
    /// The engine's text reply for each token id.
    pub vocab: Seq<Option<Seq<u8>>>,
}

impl View for WhisperInnerContext {
    type V = ContextValue;

    open spec fn view(&self) -> ContextValue {
        ContextValue {
            n_vocab: self.n_vocab,
            n_audio_ctx: self.n_audio_ctx,
            n_text_ctx: self.n_text_ctx,
            model_n_vocab: self.model_n_vocab,
            model_n_audio_ctx: self.model_n_audio_ctx,
            model_n_audio_state: self.model_n_audio_state,
            model_n_audio_head: self.model_n_audio_head,
            model_n_audio_layer: self.model_n_audio_layer,
            model_n_text_ctx: self.model_n_text_ctx,
            model_n_text_state: self.model_n_text_state,
            model_n_text_head: self.model_n_text_head,
            model_n_text_layer: self.model_n_text_layer,
            model_n_mels: self.model_n_mels,
            model_ftype: self.model_ftype,
            model_type: self.model_type,
            is_multilingual: self.is_multilingual,
            token_eot: self.token_eot,
            token_sot: self.token_sot,
            token_solm: self.token_solm,
            token_prev: self.token_prev,
            token_nosp: self.token_nosp,
            token_not: self.token_not,
            token_beg: self.token_beg,
            token_translate: self.token_translate,
            token_transcribe: self.token_transcribe,
            lang_tokens: self.lang_tokens@,
            model_type_readable: text_view(self.model_type_readable),
            vocab: self.vocab@.map_values(|e: Option<Vec<u8>>| text_view(e)),
        }
    }
}

/// A co-ownable model context.
///
/// Cloning the wrapper shares the same inner context; each decoding state
/// holds one such share. The engine's model handle is released exactly once,
/// when the last co-owner is dropped.
#[derive(Debug)]
pub struct WhisperContext {
    ctx: Arc<WhisperInnerContext>,
}

impl Clone for WhisperContext {
    /// Share the same inner context: cloning increments the reference
    /// count, it copies no model data.
    fn clone(&self) -> (r: Self)
        ensures
            r.model() == self.model(),
    {
        WhisperContext { ctx: self.ctx.clone() }
    }
}

impl WhisperContext {
    /// The model description this context carries.
    pub closed spec fn model(&self) -> ContextValue {
        self.ctx@
    }

    /// Share the inner context; used when a decoding state is created.
    pub(crate) fn share(&self) -> (r: Arc<WhisperInnerContext>)
        ensures
            r@ == self.model(),
    {
        self.ctx.clone()
    }

    fn wrap(ctx: WhisperInnerContext) -> (r: Self)
        ensures
            r.model() == ctx@,
    {
        WhisperContext { ctx: Arc::new(ctx) }
    }

    /// Accept the engine's reply to loading a model from a file path:
    /// the assembled description for a non-null model handle, `None` for a
    /// null one.
    ///
    /// Fails with `InitError` exactly on a null handle.
    pub fn new_with_params(loaded: Option<WhisperInnerContext>) -> (r: Result<
        WhisperContext,
        WhisperError,
    >)
        ensures
            r is Ok <==> loaded is Some,
            loaded is None ==> r == Err::<WhisperContext, WhisperError>(WhisperError::InitError),
            loaded matches Some(c) ==> (r matches Ok(ctx) && ctx.model() == c@),
    {
        match loaded {
            None => Err(WhisperError::InitError),
            Some(ctx) => Ok(Self::wrap(ctx)),
        }
    }

    /// Accept the engine's reply to loading a model from an in-memory
    /// buffer; the contract is that of [`Self::new_with_params`].
    pub fn new_from_buffer_with_params(loaded: Option<WhisperInnerContext>) -> (r: Result<
        WhisperContext,
        WhisperError,
    >)
        ensures
            r is Ok <==> loaded is Some,
            loaded is None ==> r == Err::<WhisperContext, WhisperError>(WhisperError::InitError),
            loaded matches Some(c) ==> (r matches Ok(ctx) && ctx.model() == c@),
    {
        match loaded {
            None => Err(WhisperError::InitError),
            Some(ctx) => Ok(Self::wrap(ctx)),
        }
    }

    /// Accept the engine's reply to a tokenize request: the return status
    /// and the buffer the engine wrote into. A non-negative status counts
    /// the token ids written, so it cannot exceed the buffer.
    ///
    /// Returns the written prefix of the buffer, or `GenericError` carrying
    /// a negative status.
    pub fn tokenize(&self, status: i32, buffer: Vec<WhisperTokenId>) -> (r: Result<
        Vec<WhisperTokenId>,
        WhisperError,
    >)
        requires
            status >= 0 ==> status <= buffer@.len(),
        ensures
            status < 0 ==> r == Err::<Vec<WhisperTokenId>, WhisperError>(
                WhisperError::GenericError(status),
            ),
            status >= 0 ==> (r matches Ok(ids) && ids@ == buffer@.subrange(0, status as int)),
    {
        if status < 0 {
            Err(WhisperError::GenericError(status))
        } else {
            let mut ids = buffer;
            ids.truncate(status as usize);
            Ok(ids)
        }
    }

    /// Get n_vocab.
    pub fn n_vocab(&self) -> (r: i32)
        ensures
            r == self.model().n_vocab,
    {
        self.ctx.n_vocab
    }

    /// Get n_text_ctx.
    pub fn n_text_ctx(&self) -> (r: i32)
        ensures
            r == self.model().n_text_ctx,
    {
        self.ctx.n_text_ctx
    }

    /// Get n_audio_ctx.
    pub fn n_audio_ctx(&self) -> (r: i32)
        ensures
            r == self.model().n_audio_ctx,
    {
        self.ctx.n_audio_ctx
    }

    /// Does this model support multiple languages?
    pub fn is_multilingual(&self) -> (r: bool)
        ensures
            r == self.model().is_multilingual,
    {
        self.ctx.is_multilingual
    }

    /// Get model_n_vocab.
    pub fn model_n_vocab(&self) -> (r: i32)
        ensures
            r == self.model().model_n_vocab,
    {
        self.ctx.model_n_vocab
    }

    /// Get model_n_audio_ctx.
    pub fn model_n_audio_ctx(&self) -> (r: i32)
        ensures
            r == self.model().model_n_audio_ctx,
    {
        self.ctx.model_n_audio_ctx
    }

    /// Get model_n_audio_state.
    pub fn model_n_audio_state(&self) -> (r: i32)
        ensures
            r == self.model().model_n_audio_state,
    {
        self.ctx.model_n_audio_state
    }

    /// Get model_n_audio_head.
    pub fn model_n_audio_head(&self) -> (r: i32)
        ensures
            r == self.model().model_n_audio_head,
    {
        self.ctx.model_n_audio_head
    }

    /// Get model_n_audio_layer.
    pub fn model_n_audio_layer(&self) -> (r: i32)
        ensures
            r == self.model().model_n_audio_layer,
    {
        self.ctx.model_n_audio_layer
    }

    /// Get model_n_text_ctx.
    pub fn model_n_text_ctx(&self) -> (r: i32)
        ensures
            r == self.model().model_n_text_ctx,
    {
        self.ctx.model_n_text_ctx
    }

    /// Get model_n_text_state.
    pub fn model_n_text_state(&self) -> (r: i32)
        ensures
            r == self.model().model_n_text_state,
    {
        self.ctx.model_n_text_state
    }

    /// Get model_n_text_head.
    pub fn model_n_text_head(&self) -> (r: i32)
        ensures
            r == self.model().model_n_text_head,
    {
        self.ctx.model_n_text_head
    }

    /// Get model_n_text_layer.
    pub fn model_n_text_layer(&self) -> (r: i32)
        ensures
            r == self.model().model_n_text_layer,
    {
        self.ctx.model_n_text_layer
    }

    /// Get model_n_mels.
    pub fn model_n_mels(&self) -> (r: i32)
        ensures
            r == self.model().model_n_mels,
    {
        self.ctx.model_n_mels
    }

    /// Get model_ftype.
    pub fn model_ftype(&self) -> (r: i32)
        ensures
            r == self.model().model_ftype,
    {
        self.ctx.model_ftype
    }

    /// Get model_type.
    pub fn model_type(&self) -> (r: i32)
        ensures
            r == self.model().model_type,
    {
        self.ctx.model_type
    }

    /// Get the readable model-type label as raw bytes.
    ///
    /// Fails with `NullPointer` exactly when the engine's reply was null.
    pub fn model_type_readable_bytes(&self) -> (r: Result<Vec<u8>, WhisperError>)
        ensures
            bytes_result_view(r) == spec_to_bytes(self.model().model_type_readable),
    {
        decode_bytes(&self.ctx.model_type_readable)
    }

    /// Get the readable model-type label as a validated string.
    ///
    /// Fails with `NullPointer` on a null reply and with `InvalidUtf8` when
    /// the reply is not valid UTF-8.
    pub fn model_type_readable_str(&self) -> (r: Result<String, WhisperError>)
        ensures
            str_result_view(r) == spec_to_str(self.model().model_type_readable),
    {
        decode_str(&self.ctx.model_type_readable)
    }

    /// Get the readable model-type label, substituting the replacement
    /// character for invalid UTF-8.
    ///
    /// Fails only with `NullPointer`, exactly on a null reply.
    pub fn model_type_readable_str_lossy(&self) -> (r: Result<String, WhisperError>)
        ensures
            str_result_view(r) == spec_to_str_lossy(self.model().model_type_readable),
    {
        decode_str_lossy(&self.ctx.model_type_readable)
    }

    /// Convert a token id to a byte array.
    ///
    /// The engine aborts the whole process on an out-of-range id, so the
    /// id must name an entry of the carried vocabulary. Fails with
    /// `NullPointer` exactly when the engine's reply for this id was null.
    pub fn token_to_bytes(&self, token_id: WhisperTokenId) -> (r: Result<Vec<u8>, WhisperError>)
        requires
            0 <= token_id < self.model().vocab.len(),
        ensures
            bytes_result_view(r) == spec_to_bytes(self.model().vocab[token_id as int]),
    {
        decode_bytes(&self.ctx.vocab[token_id as usize])
    }

    /// Convert a token id to a validated string.
    ///
    /// The engine aborts the whole process on an out-of-range id, so the
    /// id must name an entry of the carried vocabulary. Fails with
    /// `NullPointer` on a null reply and with `InvalidUtf8` when the reply
    /// is not valid UTF-8.
    pub fn token_to_str(&self, token_id: WhisperTokenId) -> (r: Result<String, WhisperError>)
        requires
            0 <= token_id < self.model().vocab.len(),
        ensures
            str_result_view(r) == spec_to_str(self.model().vocab[token_id as int]),
    {
        decode_str(&self.ctx.vocab[token_id as usize])
    }

    /// Convert a token id to a string, substituting the replacement
    /// character for invalid UTF-8.
    ///
    /// The engine aborts the whole process on an out-of-range id, so the
    /// id must name an entry of the carried vocabulary. Fails only with
    /// `NullPointer`, exactly on a null reply.
    pub fn token_to_str_lossy(&self, token_id: WhisperTokenId) -> (r: Result<String, WhisperError>)
        requires
            0 <= token_id < self.model().vocab.len(),
        ensures
            str_result_view(r) == spec_to_str_lossy(self.model().vocab[token_id as int]),
    {
        decode_str_lossy(&self.ctx.vocab[token_id as usize])
    }

    /// Get the id of the eot token.
    pub fn token_eot(&self) -> (r: WhisperTokenId)
        ensures
            r == self.model().token_eot,
    {
        self.ctx.token_eot
    }

    /// Get the id of the sot token.
    pub fn token_sot(&self) -> (r: WhisperTokenId)
        ensures
            r == self.model().token_sot,
    {
        self.ctx.token_sot
    }

    /// Get the id of the solm token.
    pub fn token_solm(&self) -> (r: WhisperTokenId)
        ensures
            r == self.model().token_solm,
    {
        self.ctx.token_solm
    }

    /// Get the id of the prev token.
    pub fn token_prev(&self) -> (r: WhisperTokenId)
        ensures
            r == self.model().token_prev,
    {
        self.ctx.token_prev
    }

    /// Get the id of the nosp token.
    pub fn token_nosp(&self) -> (r: WhisperTokenId)
        ensures
            r == self.model().token_nosp,
    {
        self.ctx.token_nosp
    }

    /// Get the id of the not token.
    pub fn token_not(&self) -> (r: WhisperTokenId)
        ensures
            r == self.model().token_not,
    {
        self.ctx.token_not
    }

    /// Get the id of the beg token.
    pub fn token_beg(&self) -> (r: WhisperTokenId)
        ensures
            r == self.model().token_beg,
    {
        self.ctx.token_beg
    }

    /// Get the id of the language token for a language id.
    ///
    /// The id must name an entry of the carried language-token table.
    pub fn token_lang(&self, lang_id: i32) -> (r: WhisperTokenId)
        requires
            0 <= lang_id < self.model().lang_tokens.len(),
        ensures
            r == self.model().lang_tokens[lang_id as int],
    {
        self.ctx.lang_tokens[lang_id as usize]
    }

    /// Get the id of the translate task token.
    pub fn token_translate(&self) -> (r: WhisperTokenId)
        ensures
            r == self.model().token_translate,
    {
        self.ctx.token_translate
    }

    /// Get the id of the transcribe task token.
    pub fn token_transcribe(&self) -> (r: WhisperTokenId)
        ensures
            r == self.model().token_transcribe,
    {
        self.ctx.token_transcribe
    }

    /// Accept the engine's reply to creating a decoding state for this
    /// model: whether the returned state handle was non-null.
    ///
    /// Fails with `InitError` exactly on a null handle; a fresh state
    /// co-owns this context and has an empty transcript.
    pub fn create_state(&self, handle: bool) -> (r: Result<WhisperState, WhisperError>)
        ensures
            r is Ok <==> handle,
            !handle ==> r == Err::<WhisperState, WhisperError>(WhisperError::InitError),
            r matches Ok(s) ==> s.model() == self.model() && s.transcript() == Seq::<
                crate::segment::SegmentValue,
            >::empty() && s.wf(),
    {
        if handle {
            Ok(WhisperState::fresh(self.share()))
        } else {
            Err(WhisperError::InitError)
        }
    }
}

} // verus!
