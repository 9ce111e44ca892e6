//! Tests for the model context, the decoding state, and the segment and
//! token navigation.

use whisper_rs::{
    SegmentRecord, TokenRecord, WhisperContext, WhisperError, WhisperInnerContext,
    WhisperTokenData,
};

fn sample_inner_context() -> WhisperInnerContext {
    WhisperInnerContext {
        n_vocab: 4,
        n_audio_ctx: 1500,
        n_text_ctx: 448,
        model_n_vocab: 4,
        model_n_audio_ctx: 1500,
        model_n_audio_state: 384,
        model_n_audio_head: 6,
        model_n_audio_layer: 4,
        model_n_text_ctx: 448,
        model_n_text_state: 384,
        model_n_text_head: 6,
        model_n_text_layer: 4,
        model_n_mels: 80,
        model_ftype: 1,
        model_type: 1,
        is_multilingual: true,
        token_eot: 50256,
        token_sot: 50257,
        token_solm: 50359,
        token_prev: 50360,
        token_nosp: 50362,
        token_not: 50363,
        token_beg: 50364,
        token_translate: 50358,
        token_transcribe: 50359,
        lang_tokens: vec![50259, 50260, 50261],
        model_type_readable: Some(b"tiny".to_vec()),
        vocab: vec![
            Some(b" hello".to_vec()),
            Some(vec![0xFF, 0xFE]),
            None,
            Some(b" world".to_vec()),
        ],
    }
}

fn sample_token(id: i32, t_dtw: i64, text: Option<Vec<u8>>) -> TokenRecord {
    TokenRecord {
        id,
        data: WhisperTokenData {
            id,
            tid: 0,
            p: (0.75f32).to_bits(),
            plog: (-0.25f32).to_bits(),
            pt: 0,
            ptsum: 0,
            t0: 0,
            t1: 10,
            t_dtw,
            vlen: 0,
        },
        probability: (0.75f32).to_bits(),
        text,
    }
}

fn sample_transcript() -> Vec<SegmentRecord> {
    vec![
        SegmentRecord {
            t0: 0,
            t1: 150,
            speaker_turn_next: false,
            no_speech_prob: (0.01f32).to_bits(),
            text: Some(b" And so my fellow".to_vec()),
            tokens: vec![
                sample_token(0, 5, Some(b" And".to_vec())),
                sample_token(3, 40, Some(b" so".to_vec())),
            ],
        },
        SegmentRecord {
            t0: 150,
            t1: 300,
            speaker_turn_next: true,
            no_speech_prob: (0.02f32).to_bits(),
            text: Some(vec![0xC3, 0x28]),
            tokens: vec![sample_token(1, 160, None)],
        },
    ]
}

#[test]
fn loading_a_null_model_handle_is_an_init_error() {
    let result = WhisperContext::new_with_params(None);
    assert!(matches!(result, Err(WhisperError::InitError)));
    let result = WhisperContext::new_from_buffer_with_params(None);
    assert!(matches!(result, Err(WhisperError::InitError)));
}

#[test]
fn context_reports_the_model_description() {
    let ctx = WhisperContext::new_with_params(Some(sample_inner_context())).unwrap();
    assert_eq!(ctx.n_vocab(), 4);
    assert_eq!(ctx.n_audio_ctx(), 1500);
    assert_eq!(ctx.n_text_ctx(), 448);
    assert!(ctx.is_multilingual());
    assert_eq!(ctx.model_n_vocab(), 4);
    assert_eq!(ctx.model_n_audio_ctx(), 1500);
    assert_eq!(ctx.model_n_audio_state(), 384);
    assert_eq!(ctx.model_n_audio_head(), 6);
    assert_eq!(ctx.model_n_audio_layer(), 4);
    assert_eq!(ctx.model_n_text_ctx(), 448);
    assert_eq!(ctx.model_n_text_state(), 384);
    assert_eq!(ctx.model_n_text_head(), 6);
    assert_eq!(ctx.model_n_text_layer(), 4);
    assert_eq!(ctx.model_n_mels(), 80);
    assert_eq!(ctx.model_ftype(), 1);
    assert_eq!(ctx.model_type(), 1);
    assert_eq!(ctx.token_eot(), 50256);
    assert_eq!(ctx.token_sot(), 50257);
    assert_eq!(ctx.token_solm(), 50359);
    assert_eq!(ctx.token_prev(), 50360);
    assert_eq!(ctx.token_nosp(), 50362);
    assert_eq!(ctx.token_not(), 50363);
    assert_eq!(ctx.token_beg(), 50364);
    assert_eq!(ctx.token_translate(), 50358);
    assert_eq!(ctx.token_transcribe(), 50359);
    assert_eq!(ctx.token_lang(0), 50259);
    assert_eq!(ctx.token_lang(2), 50261);
}

#[test]
fn model_type_label_offers_the_decoding_triad() {
    let ctx = WhisperContext::new_with_params(Some(sample_inner_context())).unwrap();
    assert_eq!(ctx.model_type_readable_bytes().unwrap(), b"tiny".to_vec());
    assert_eq!(ctx.model_type_readable_str().unwrap(), "tiny");
    assert_eq!(ctx.model_type_readable_str_lossy().unwrap(), "tiny");

    let mut inner = sample_inner_context();
    inner.model_type_readable = None;
    let ctx = WhisperContext::new_with_params(Some(inner)).unwrap();
    assert!(matches!(
        ctx.model_type_readable_bytes(),
        Err(WhisperError::NullPointer)
    ));
    assert!(matches!(
        ctx.model_type_readable_str(),
        Err(WhisperError::NullPointer)
    ));
    assert!(matches!(
        ctx.model_type_readable_str_lossy(),
        Err(WhisperError::NullPointer)
    ));
}

#[test]
fn token_text_offers_the_decoding_triad() {
    let ctx = WhisperContext::new_with_params(Some(sample_inner_context())).unwrap();
    assert_eq!(ctx.token_to_bytes(0).unwrap(), b" hello".to_vec());
    assert_eq!(ctx.token_to_str(0).unwrap(), " hello");
    assert_eq!(ctx.token_to_str_lossy(0).unwrap(), " hello");

    assert_eq!(ctx.token_to_bytes(1).unwrap(), vec![0xFF, 0xFE]);
    assert!(matches!(ctx.token_to_str(1), Err(WhisperError::InvalidUtf8)));
    assert_eq!(ctx.token_to_str_lossy(1).unwrap(), "\u{FFFD}\u{FFFD}");

    assert!(matches!(ctx.token_to_bytes(2), Err(WhisperError::NullPointer)));
    assert!(matches!(ctx.token_to_str(2), Err(WhisperError::NullPointer)));
    assert!(matches!(
        ctx.token_to_str_lossy(2),
        Err(WhisperError::NullPointer)
    ));
}

#[test]
fn tokenize_returns_the_written_prefix() {
    let ctx = WhisperContext::new_with_params(Some(sample_inner_context())).unwrap();
    let buffer = vec![11, 22, 33, 0, 0, 0];
    assert_eq!(ctx.tokenize(3, buffer.clone()).unwrap(), vec![11, 22, 33]);
    assert_eq!(ctx.tokenize(0, buffer.clone()).unwrap(), Vec::<i32>::new());
    assert_eq!(
        ctx.tokenize(-7, buffer),
        Err(WhisperError::GenericError(-7))
    );
}

#[test]
fn creating_a_state_needs_a_handle() {
    let ctx = WhisperContext::new_with_params(Some(sample_inner_context())).unwrap();
    assert!(matches!(ctx.create_state(false), Err(WhisperError::InitError)));
    let state = ctx.create_state(true).unwrap();
    assert_eq!(state.full_n_segments(), 0);
    assert_eq!(state.n_vocab(), 4);
}

#[test]
fn thread_counts_below_one_are_rejected_before_the_engine() {
    let ctx = WhisperContext::new_with_params(Some(sample_inner_context())).unwrap();
    let state = ctx.create_state(true).unwrap();
    assert_eq!(
        state.pcm_to_mel_precheck(0),
        Err(WhisperError::InvalidThreadCount)
    );
    assert_eq!(
        state.encode_precheck(0),
        Err(WhisperError::InvalidThreadCount)
    );
    assert_eq!(
        state.decode_precheck(0),
        Err(WhisperError::InvalidThreadCount)
    );
    assert_eq!(
        state.lang_detect_precheck(0),
        Err(WhisperError::InvalidThreadCount)
    );
    assert_eq!(state.pcm_to_mel_precheck(1), Ok(()));
    assert_eq!(state.encode_precheck(4), Ok(()));
    assert_eq!(state.decode_precheck(8), Ok(()));
    assert_eq!(state.lang_detect_precheck(2), Ok(()));
}

#[test]
fn empty_samples_are_rejected_before_the_engine() {
    let ctx = WhisperContext::new_with_params(Some(sample_inner_context())).unwrap();
    let state = ctx.create_state(true).unwrap();
    assert_eq!(state.full_precheck(0), Err(WhisperError::NoSamples));
    assert_eq!(state.full_precheck(16000), Ok(()));
}

#[test]
fn engine_statuses_map_onto_the_error_taxonomy() {
    let ctx = WhisperContext::new_with_params(Some(sample_inner_context())).unwrap();
    let mut state = ctx.create_state(true).unwrap();
    assert_eq!(
        state.pcm_to_mel_accept(-1),
        Err(WhisperError::UnableToCalculateSpectrogram)
    );
    assert_eq!(state.pcm_to_mel_accept(0), Ok(()));
    assert_eq!(
        state.pcm_to_mel_accept(3),
        Err(WhisperError::GenericError(3))
    );
    assert_eq!(state.set_mel_accept(-1), Err(WhisperError::InvalidMelBands));
    assert_eq!(state.set_mel_accept(0), Ok(()));
    assert_eq!(state.set_mel_accept(9), Err(WhisperError::GenericError(9)));
    assert_eq!(
        state.encode_accept(-1),
        Err(WhisperError::UnableToCalculateEvaluation)
    );
    assert_eq!(state.encode_accept(0), Ok(()));
    assert_eq!(
        state.decode_accept(-1),
        Err(WhisperError::UnableToCalculateEvaluation)
    );
    assert_eq!(state.decode_accept(2), Err(WhisperError::GenericError(2)));
    assert_eq!(
        state.full_accept(-1, Vec::new()),
        Err(WhisperError::UnableToCalculateSpectrogram)
    );
    assert_eq!(
        state.full_accept(7, Vec::new()),
        Err(WhisperError::FailedToEncode)
    );
    assert_eq!(
        state.full_accept(8, Vec::new()),
        Err(WhisperError::FailedToDecode)
    );
    assert_eq!(
        state.full_accept(5, Vec::new()),
        Err(WhisperError::GenericError(5))
    );
    assert_eq!(state.full_accept(0, Vec::new()), Ok(0));
}

#[test]
fn set_mel_request_computes_the_frame_count() {
    let ctx = WhisperContext::new_with_params(Some(sample_inner_context())).unwrap();
    let state = ctx.create_state(true).unwrap();
    assert_eq!(state.set_mel_request(1600), (20, 80));
    assert_eq!(state.set_mel_request(0), (0, 80));
    assert_eq!(state.set_mel_request(159), (0, 80));
}

#[test]
fn lang_detect_accept_returns_the_id_and_probabilities() {
    let ctx = WhisperContext::new_with_params(Some(sample_inner_context())).unwrap();
    let state = ctx.create_state(true).unwrap();
    let probs = vec![(0.9f32).to_bits(), (0.1f32).to_bits()];
    let (id, returned) = state.lang_detect_accept(1, probs.clone()).unwrap();
    assert_eq!(id, 1);
    assert_eq!(returned, probs);
    assert_eq!(
        state.lang_detect_accept(-3, probs),
        Err(WhisperError::GenericError(-3))
    );
}

#[test]
fn get_logits_fails_only_on_null() {
    let ctx = WhisperContext::new_with_params(Some(sample_inner_context())).unwrap();
    let state = ctx.create_state(true).unwrap();
    assert_eq!(state.get_logits(None), Err(WhisperError::NullPointer));
    let logits = vec![1u32, 2, 3, 4];
    assert_eq!(state.get_logits(Some(logits.clone())).unwrap(), logits);
}

#[test]
fn a_failed_full_run_leaves_the_transcript() {
    let ctx = WhisperContext::new_with_params(Some(sample_inner_context())).unwrap();
    let mut state = ctx.create_state(true).unwrap();
    state.full_accept(0, sample_transcript()).unwrap();
    assert_eq!(state.full_n_segments(), 2);
    assert_eq!(
        state.full_accept(8, Vec::new()),
        Err(WhisperError::FailedToDecode)
    );
    assert_eq!(state.full_n_segments(), 2);
}

#[test]
fn segments_are_returned_exactly_within_bounds() {
    let ctx = WhisperContext::new_with_params(Some(sample_inner_context())).unwrap();
    let mut state = ctx.create_state(true).unwrap();
    state.full_accept(0, sample_transcript()).unwrap();
    assert_eq!(state.full_n_segments(), 2);
    assert!(state.get_segment(-1).is_none());
    assert!(state.get_segment(2).is_none());
    let first = state.get_segment(0).unwrap();
    assert_eq!(first.segment_index(), 0);
    assert_eq!(first.start_timestamp(), 0);
    assert_eq!(first.end_timestamp(), 150);
    assert_eq!(first.n_tokens(), 2);
    assert!(!first.next_segment_speaker_turn());
    assert_eq!(f32::from_bits(first.no_speech_probability()), 0.01f32);
    assert_eq!(first.to_bytes().unwrap(), b" And so my fellow".to_vec());
    assert_eq!(first.to_str().unwrap(), " And so my fellow");
    assert_eq!(first.to_str_lossy().unwrap(), " And so my fellow");
    let second = state.get_segment(1).unwrap();
    assert!(second.next_segment_speaker_turn());
    assert!(matches!(second.to_str(), Err(WhisperError::InvalidUtf8)));
    assert_eq!(second.to_str_lossy().unwrap(), "\u{FFFD}(");
    let unchecked = state.get_segment_unchecked(1);
    assert_eq!(unchecked.start_timestamp(), 150);
}

#[test]
fn the_iterator_yields_every_segment_in_ascending_order() {
    let ctx = WhisperContext::new_with_params(Some(sample_inner_context())).unwrap();
    let mut state = ctx.create_state(true).unwrap();
    state.full_accept(0, sample_transcript()).unwrap();
    let mut iter = state.as_iter();
    let mut seen = Vec::new();
    while let Some(segment) = iter.next() {
        seen.push(segment.segment_index());
    }
    assert_eq!(seen, vec![0, 1]);
    assert!(iter.next().is_none());
}

#[test]
fn tokens_are_returned_exactly_within_the_cached_bound() {
    let ctx = WhisperContext::new_with_params(Some(sample_inner_context())).unwrap();
    let mut state = ctx.create_state(true).unwrap();
    state.full_accept(0, sample_transcript()).unwrap();
    let segment = state.get_segment(0).unwrap();
    assert!(segment.get_token(-1).is_none());
    assert!(segment.get_token(2).is_none());
    let token = segment.get_token(0).unwrap();
    assert_eq!(token.token_id(), 0);
    assert_eq!(token.token_data().t_dtw, 5);
    assert_eq!(f32::from_bits(token.token_probability()), 0.75f32);
    assert_eq!(token.to_bytes().unwrap(), b" And".to_vec());
    assert_eq!(token.to_str().unwrap(), " And");
    assert_eq!(token.to_str_lossy().unwrap(), " And");
    let second = segment.get_token_unchecked(1);
    assert_eq!(second.token_id(), 3);
    assert_eq!(second.token_data().t_dtw, 40);
}

#[test]
fn a_null_token_text_reports_null_pointer_in_every_decoding() {
    let ctx = WhisperContext::new_with_params(Some(sample_inner_context())).unwrap();
    let mut state = ctx.create_state(true).unwrap();
    state.full_accept(0, sample_transcript()).unwrap();
    let segment = state.get_segment(1).unwrap();
    let token = segment.get_token(0).unwrap();
    assert!(matches!(token.to_bytes(), Err(WhisperError::NullPointer)));
    assert!(matches!(token.to_str(), Err(WhisperError::NullPointer)));
    assert!(matches!(token.to_str_lossy(), Err(WhisperError::NullPointer)));
}

#[test]
fn a_fresh_state_has_an_empty_transcript() {
    let ctx = WhisperContext::new_with_params(Some(sample_inner_context())).unwrap();
    let state = ctx.create_state(true).unwrap();
    assert_eq!(state.full_n_segments(), 0);
    assert!(state.get_segment(0).is_none());
    let mut iter = state.as_iter();
    assert!(iter.next().is_none());
}
