//! Parameter structs for loading a model and for a whole-pipeline run.
//!
//! Both are plain value types owned by the caller until consumed by the
//! engine call. Engine quantities that are 32-bit floats in the native
//! interface (the beam-search patience) are carried as their IEEE-754 bit
//! patterns.
//!
//! Progress, new-segment and encoder-begin callbacks are delivered to the
//! engine with minimal marshalling by the code making the foreign call;
//! they never enter this crate's logic.

use vstd::prelude::*;

verus! {

/// Bit pattern of the 32-bit float minus one (-1.0): the engine's default
/// beam-search patience, meaning the feature is disabled.
pub const DEFAULT_BEAM_SEARCH_PATIENCE: u32 = 0xBF80_0000;

/// The decoding strategy of a whole-pipeline run.
#[derive(Debug, Clone, Copy, PartialEq, Eq, Structural)]
pub enum SamplingStrategy {
    /// Greedy decoding, keeping the best of the given number of candidates.
    Greedy {
        /// Number of candidates to decode.
        best_of: i32,
    },
    /// Beam-search decoding.
    BeamSearch {
        /// Number of beams.
        beam_size: i32,
        /// Patience (bit pattern of an `f32`).
        patience: u32,
    },
}

impl Default for SamplingStrategy {
    /// The engine's default strategy: greedy decoding over five
    /// candidates.
    fn default() -> (r: Self)
        ensures
            r == (SamplingStrategy::Greedy { best_of: 5 }),
    {
        SamplingStrategy::Greedy { best_of: 5 }
    }
}

/// A known model layout the engine ships token-alignment heads for.
#[derive(Debug, Clone, Copy, PartialEq, Eq, Structural)]
pub enum DtwModelPreset {
    /// The tiny model.
    Tiny,
    /// The English-only tiny model.
    TinyEn,
    /// The base model.
    Base,
    /// The English-only base model.
    BaseEn,
    /// The small model.
    Small,
    /// The English-only small model.
    SmallEn,
    /// The medium model.
    Medium,
    /// The English-only medium model.
    MediumEn,
    /// The first large model.
    LargeV1,
    /// The second large model.
    LargeV2,
    /// The third large model.
    LargeV3,
    /// The turbo variant of the third large model.
    LargeV3Turbo,
}

/// How the engine should pick alignment heads for token-level timestamps.
#[derive(Debug, PartialEq, Eq)]
pub enum DtwMode {
    /// Token-level timestamp alignment is off.
    Disabled,
    /// Use the heads of the top text layers.
    TopMost {
        /// Number of top text layers to take heads from.
        n_top: i32,
    },
    /// Use the engine's preset heads for a known model.
    ModelPreset {
        /// The known model.
        model_preset: DtwModelPreset,
    },
    /// Use the given (text layer, head) pairs.
    Custom {
        /// The alignment heads, as (text layer, head) pairs.
        aheads: Vec<(i32, i32)>,
    },
}

/// Parameters for loading a model context.
#[derive(Debug, PartialEq, Eq)]
pub struct WhisperContextParameters {
    /// Whether the engine may use a GPU.
    pub use_gpu: bool,
    /// Whether the engine may use flash attention.
    pub flash_attn: bool,
    /// The GPU device to use when the GPU is enabled.
    pub gpu_device: i32,
    /// How alignment heads for token-level timestamps are picked.
    pub dtw_parameters: DtwMode,
}

impl Default for WhisperContextParameters {
    /// The engine's default loading parameters: GPU allowed, flash
    /// attention off, device zero, token-level alignment off.
    fn default() -> (r: Self)
        ensures
            r.use_gpu,
            !r.flash_attn,
            r.gpu_device == 0,
            r.dtw_parameters == DtwMode::Disabled,
    {
        WhisperContextParameters {
            use_gpu: true,
            flash_attn: false,
            gpu_device: 0,
            dtw_parameters: DtwMode::Disabled,
        }
    }
}

impl WhisperContextParameters {
    /// The engine's default loading parameters.
    pub fn new() -> (r: Self)
        ensures
            r.use_gpu,
            !r.flash_attn,
            r.gpu_device == 0,
            r.dtw_parameters == DtwMode::Disabled,
    {
        Self::default()
    }

    /// Set whether the engine may use a GPU.
    pub fn use_gpu(&mut self, use_gpu: bool)
        ensures
            final(self).use_gpu == use_gpu,
            final(self).flash_attn == old(self).flash_attn,
            final(self).gpu_device == old(self).gpu_device,
            final(self).dtw_parameters == old(self).dtw_parameters,
    {
        self.use_gpu = use_gpu;
    }

    /// Set whether the engine may use flash attention.
    pub fn flash_attn(&mut self, flash_attn: bool)
        ensures
            final(self).use_gpu == old(self).use_gpu,
            final(self).flash_attn == flash_attn,
            final(self).gpu_device == old(self).gpu_device,
            final(self).dtw_parameters == old(self).dtw_parameters,
    {
        self.flash_attn = flash_attn;
    }

    /// Set the GPU device to use when the GPU is enabled.
    pub fn gpu_device(&mut self, gpu_device: i32)
        ensures
            final(self).use_gpu == old(self).use_gpu,
            final(self).flash_attn == old(self).flash_attn,
            final(self).gpu_device == gpu_device,
            final(self).dtw_parameters == old(self).dtw_parameters,
    {
        self.gpu_device = gpu_device;
    }

    /// Set how alignment heads for token-level timestamps are picked.
    pub fn dtw_parameters(&mut self, dtw_parameters: DtwMode)
        ensures
            final(self).use_gpu == old(self).use_gpu,
            final(self).flash_attn == old(self).flash_attn,
            final(self).gpu_device == old(self).gpu_device,
            final(self).dtw_parameters == dtw_parameters,
    {
        self.dtw_parameters = dtw_parameters;
    }
}

/// Parameters of a whole-pipeline run, owned by the caller until the run
/// consumes them.
#[derive(Debug, PartialEq, Eq)]
pub struct FullParams {
    /// The decoding strategy.
    pub strategy: SamplingStrategy,
    /// Number of threads the engine may use.
    pub n_threads: i32,
    /// Whether to translate the result to English.
    pub translate: bool,
    /// Whether to clear the text context between runs.
    pub no_context: bool,
    /// Whether to force a single segment of output.
    pub single_segment: bool,
    /// Whether to print special tokens.
    pub print_special: bool,
    /// Whether to print progress information.
    pub print_progress: bool,
    /// Whether to print results as they arrive.
    pub print_realtime: bool,
    /// Whether to print timestamps with results.
    pub print_timestamps: bool,
    /// Whether to compute token-level timestamps.
    pub token_timestamps: bool,
    /// The spoken language as a two-letter code; `None` means auto-detect.
    pub language: Option<String>,
    /// Text to provide as an initial prompt.
    pub initial_prompt: Option<String>,
}

impl FullParams {
    /// Parameters carrying the engine's defaults for the given strategy:
    /// four threads, no translation, context kept, multiple segments
    /// allowed, progress and timestamps printed, English assumed, no
    /// initial prompt.
    pub fn new(strategy: SamplingStrategy) -> (r: FullParams)
        ensures
            r.strategy == strategy,
            r.n_threads == 4,
            !r.translate,
            !r.no_context,
            !r.single_segment,
            !r.print_special,
            r.print_progress,
            !r.print_realtime,
            r.print_timestamps,
            !r.token_timestamps,
            r.language matches Some(l) && l@ == "en"@,
            r.initial_prompt is None,
    {
        FullParams {
            strategy,
            n_threads: 4,
            translate: false,
            no_context: false,
            single_segment: false,
            print_special: false,
            print_progress: true,
            print_realtime: false,
            print_timestamps: true,
            token_timestamps: false,
            language: Some("en".to_owned()),
            initial_prompt: None,
        }
    }

    /// Set the number of threads the engine may use. The pipeline
    /// prechecks reject counts below one.
    pub fn set_n_threads(&mut self, n_threads: i32)
        ensures
            *final(self) == (FullParams { n_threads, ..*old(self) }),
    {
        self.n_threads = n_threads;
    }

    /// Set whether to translate the result to English.
    pub fn set_translate(&mut self, translate: bool)
        ensures
            *final(self) == (FullParams { translate, ..*old(self) }),
    {
        self.translate = translate;
    }

    /// Set whether to clear the text context between runs.
    pub fn set_no_context(&mut self, no_context: bool)
        ensures
            *final(self) == (FullParams { no_context, ..*old(self) }),
    {
        self.no_context = no_context;
    }

    /// Set whether to force a single segment of output.
    pub fn set_single_segment(&mut self, single_segment: bool)
        ensures
            *final(self) == (FullParams { single_segment, ..*old(self) }),
    {
        self.single_segment = single_segment;
    }

    /// Set whether to print special tokens.
    pub fn set_print_special(&mut self, print_special: bool)
        ensures
            *final(self) == (FullParams { print_special, ..*old(self) }),
    {
        self.print_special = print_special;
    }

    /// Set whether to print progress information.
    pub fn set_print_progress(&mut self, print_progress: bool)
        ensures
            *final(self) == (FullParams { print_progress, ..*old(self) }),
    {
        self.print_progress = print_progress;
    }

    /// Set whether to print results as they arrive.
    pub fn set_print_realtime(&mut self, print_realtime: bool)
        ensures
            *final(self) == (FullParams { print_realtime, ..*old(self) }),
    {
        self.print_realtime = print_realtime;
    }

    /// Set whether to print timestamps with results.
    pub fn set_print_timestamps(&mut self, print_timestamps: bool)
        ensures
            *final(self) == (FullParams { print_timestamps, ..*old(self) }),
    {
        self.print_timestamps = print_timestamps;
    }

    /// Set whether to compute token-level timestamps.
    pub fn set_token_timestamps(&mut self, token_timestamps: bool)
        ensures
            *final(self) == (FullParams { token_timestamps, ..*old(self) }),
    {
        self.token_timestamps = token_timestamps;
    }

    /// Set the spoken language as a two-letter code; `None` means
    /// auto-detect.
    pub fn set_language(&mut self, language: Option<String>)
        ensures
            *final(self) == (FullParams { language, ..*old(self) }),
    {
        self.language = language;
    }

    /// Set text to provide as an initial prompt.
    pub fn set_initial_prompt(&mut self, initial_prompt: Option<String>)
        ensures
            *final(self) == (FullParams { initial_prompt, ..*old(self) }),
    {
        self.initial_prompt = initial_prompt;
    }
}

} // verus!
