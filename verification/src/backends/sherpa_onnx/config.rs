//! Session configuration, and the recognizer configuration it leads to.

use std::path::PathBuf;
use vstd::prelude::*;

use super::files::{path_to_string, ModelFiles};
use super::preset::{bilingual_zh_en, ModelFamily, ModelPreset, PresetView};
use crate::error::ErrorView;
use crate::{AsrError, F32Bits};

verus! {

/// Decoding method passed through to sherpa-onnx.
#[derive(Debug, Clone, Copy, PartialEq, Eq, Structural)]
pub enum DecodingMethod {
    /// Greedy search: lowest latency, default.
    Greedy,
    /// Modified beam search: slightly better quality, ~30% more CPU.
    ModifiedBeamSearch,
}

impl DecodingMethod {
    /// The name sherpa-onnx knows the method by.
    pub open spec fn name(self) -> Seq<char> {
        match self {
            DecodingMethod::Greedy => "greedy_search"@,
            DecodingMethod::ModifiedBeamSearch => "modified_beam_search"@,
        }
    }

    /// The name sherpa-onnx knows the method by.
    pub fn as_str(self) -> (name: &'static str)
        ensures
            name@ == self.name(),
    {
        match self {
            DecodingMethod::Greedy => "greedy_search",
            DecodingMethod::ModifiedBeamSearch => "modified_beam_search",
        }
    }
}

/// The bit pattern of `0.8`: trailing silence (seconds) for endpoint rule 2
/// by default.
pub const RULE2_DEFAULT_BITS: u32 = 0x3f4c_cccd;

/// The bit pattern of `2.4`: trailing silence (seconds) for endpoint rule 1.
pub const RULE1_BITS: u32 = 0x4019_999a;

/// The bit pattern of `300.0`: longest utterance (seconds), endpoint rule 3.
pub const RULE3_BITS: u32 = 0x4396_0000;

/// Configuration for [`SherpaOnnxAsr`](super::SherpaOnnxAsr).
///
/// Most users want [`SherpaOnnxConfig::from_preset`] to pick one of the
/// bundled [`ModelPreset`]s. Fields are exposed for downstream crates that
/// want non-bundled checkpoints.
///
/// Resolution order for the model files:
/// 1. `model_dir` if `Some`: files are looked up under it by the
///    `*_filename` fields.
/// 2. `WAVEKAT_ASR_MODEL_DIR` env var: same lookup, useful for tests
///    and power users who don't want a HuggingFace download.
/// 3. HuggingFace Hub: fetched from `model_id` into hf-hub's cache.
#[derive(Debug, Clone)]
pub struct SherpaOnnxConfig {
    /// Directory containing the model files. If `None`, falls back to
    /// the env var, then HuggingFace.
    pub model_dir: Option<PathBuf>,
    /// HuggingFace repo id used when no local directory is found.
    pub model_id: String,
    /// Architecture family: determines which recognizer config slot is used.
    pub family: ModelFamily,
    /// Encoder filename inside the model directory / HF repo.
    pub encoder_filename: String,
    /// Decoder filename inside the model directory / HF repo.
    pub decoder_filename: String,
    /// Joiner filename. `Some` for transducers, `None` for Paraformer.
    pub joiner_filename: Option<String>,
    /// Tokens filename inside the model directory / HF repo.
    pub tokens_filename: String,
    /// Number of threads for ONNX Runtime.
    pub num_threads: i32,
    /// Decoding strategy.
    pub decoding_method: DecodingMethod,
    /// Whether to enable sherpa-onnx's built-in endpointer.
    pub enable_endpoint: bool,
    /// Trailing silence (seconds) for endpoint rule 2.
    pub rule2_min_trailing_silence: F32Bits,
}

/// What a [`SherpaOnnxConfig`] says.
pub struct ConfigView {
    pub model_dir: Option<PathBuf>,
    pub model_id: Seq<char>,
    pub family: ModelFamily,
    pub encoder_filename: Seq<char>,
    pub decoder_filename: Seq<char>,
    pub joiner_filename: Option<Seq<char>>,
    pub tokens_filename: Seq<char>,
    pub num_threads: int,
    pub decoding_method: DecodingMethod,
    pub enable_endpoint: bool,
    pub rule2_min_trailing_silence: F32Bits,
}

/// The text of an optional string.
pub open spec fn optional_text(s: Option<String>) -> Option<Seq<char>> {
    match s {
        Some(text) => Some(text@),
        None => None,
    }
}

impl View for SherpaOnnxConfig {
    type V = ConfigView;

    open spec fn view(&self) -> ConfigView {
        ConfigView {
            model_dir: self.model_dir,
            model_id: self.model_id@,
            family: self.family,
            encoder_filename: self.encoder_filename@,
            decoder_filename: self.decoder_filename@,
            joiner_filename: optional_text(self.joiner_filename),
            tokens_filename: self.tokens_filename@,
            num_threads: self.num_threads as int,
            decoding_method: self.decoding_method,
            enable_endpoint: self.enable_endpoint,
            rule2_min_trailing_silence: self.rule2_min_trailing_silence,
        }
    }
}

impl ConfigView {
    /// The configuration for a preset: its model, two threads, greedy search
    /// and endpoints after 0.8 s of silence.
    pub open spec fn of_preset(preset: PresetView) -> ConfigView {
        ConfigView {
            model_dir: None,
            model_id: preset.model_id,
            family: preset.family,
            encoder_filename: preset.encoder,
            decoder_filename: preset.decoder,
            joiner_filename: preset.joiner,
            tokens_filename: preset.tokens,
            num_threads: 2,
            decoding_method: DecodingMethod::Greedy,
            enable_endpoint: true,
            rule2_min_trailing_silence: F32Bits { bits: RULE2_DEFAULT_BITS },
        }
    }
}

impl SherpaOnnxConfig {
    /// Build a config from one of the bundled [`ModelPreset`]s.
    /// All other fields are filled with sensible defaults.
    pub fn from_preset(preset: ModelPreset) -> (config: Self)
        ensures
            config@ == ConfigView::of_preset(preset@),
    {
        SherpaOnnxConfig {
            model_dir: None,
            model_id: preset.model_id.to_string(),
            family: preset.family,
            encoder_filename: preset.encoder.to_string(),
            decoder_filename: preset.decoder.to_string(),
            joiner_filename: match preset.joiner {
                Some(joiner) => Some(joiner.to_string()),
                None => None,
            },
            tokens_filename: preset.tokens.to_string(),
            num_threads: 2,
            decoding_method: DecodingMethod::Greedy,
            enable_endpoint: true,
            rule2_min_trailing_silence: F32Bits { bits: RULE2_DEFAULT_BITS },
        }
    }
}

impl Default for SherpaOnnxConfig {
    /// Defaults to the bilingual EN+ZH Zipformer ([`bilingual_zh_en`]).
    fn default() -> (config: Self)
        ensures
            config@ == ConfigView::of_preset(PresetView::bilingual_zh_en()),
    {
        Self::from_preset(bilingual_zh_en())
    }
}

/// The model files of a transducer, or nothing where another family is used.
#[derive(Debug)]
pub struct TransducerPaths {
    pub encoder: Option<String>,
    pub decoder: Option<String>,
    pub joiner: Option<String>,
}

/// The model files of a Paraformer, or nothing where another family is used.
#[derive(Debug)]
pub struct ParaformerPaths {
    pub encoder: Option<String>,
    pub decoder: Option<String>,
}

/// What the recognizer is created with. Every setting of sherpa-onnx that
/// does not appear here keeps its default.
#[derive(Debug)]
pub struct RecognizerConfig {
    pub transducer: TransducerPaths,
    pub paraformer: ParaformerPaths,
    pub tokens: Option<String>,
    pub num_threads: i32,
    pub provider: Option<String>,
    pub decoding_method: Option<String>,
    pub enable_endpoint: bool,
    pub rule1_min_trailing_silence: F32Bits,
    pub rule2_min_trailing_silence: F32Bits,
    pub rule3_min_utterance_length: F32Bits,
}

/// What a [`RecognizerConfig`] says.
pub struct RecognizerConfigView {
    pub transducer_encoder: Option<Seq<char>>,
    pub transducer_decoder: Option<Seq<char>>,
    pub transducer_joiner: Option<Seq<char>>,
    pub paraformer_encoder: Option<Seq<char>>,
    pub paraformer_decoder: Option<Seq<char>>,
    pub tokens: Option<Seq<char>>,
    pub num_threads: int,
    pub provider: Option<Seq<char>>,
    pub decoding_method: Option<Seq<char>>,
    pub enable_endpoint: bool,
    pub rule1_min_trailing_silence: F32Bits,
    pub rule2_min_trailing_silence: F32Bits,
    pub rule3_min_utterance_length: F32Bits,
}

impl View for RecognizerConfig {
    type V = RecognizerConfigView;

    open spec fn view(&self) -> RecognizerConfigView {
        RecognizerConfigView {
            transducer_encoder: optional_text(self.transducer.encoder),
            transducer_decoder: optional_text(self.transducer.decoder),
            transducer_joiner: optional_text(self.transducer.joiner),
            paraformer_encoder: optional_text(self.paraformer.encoder),
            paraformer_decoder: optional_text(self.paraformer.decoder),
            tokens: optional_text(self.tokens),
            num_threads: self.num_threads as int,
            provider: optional_text(self.provider),
            decoding_method: optional_text(self.decoding_method),
            enable_endpoint: self.enable_endpoint,
            rule1_min_trailing_silence: self.rule1_min_trailing_silence,
            rule2_min_trailing_silence: self.rule2_min_trailing_silence,
            rule3_min_utterance_length: self.rule3_min_utterance_length,
        }
    }
}

impl ConfigView {
    /// What a recognizer is created with where no model path is set yet: at
    /// least one thread, on the CPU, with the method and the endpoint rules
    /// of the configuration.
    pub open spec fn settings(self) -> RecognizerConfigView {
        RecognizerConfigView {
            transducer_encoder: None,
            transducer_decoder: None,
            transducer_joiner: None,
            paraformer_encoder: None,
            paraformer_decoder: None,
            tokens: None,
            num_threads: if self.num_threads < 1 {
                1
            } else {
                self.num_threads
            },
            provider: Some("cpu"@),
            decoding_method: Some(self.decoding_method.name()),
            enable_endpoint: self.enable_endpoint,
            rule1_min_trailing_silence: F32Bits { bits: RULE1_BITS },
            rule2_min_trailing_silence: self.rule2_min_trailing_silence,
            rule3_min_utterance_length: F32Bits { bits: RULE3_BITS },
        }
    }

    /// What the recognizer is created with: the paths go where the family
    /// wants them. The first path that is not UTF-8 is an error, and so is a
    /// transducer without a joiner.
    pub open spec fn recognizer_config(self, files: ModelFiles) -> Result<
        RecognizerConfigView,
        ErrorView,
    > {
        match self.family {
            ModelFamily::Transducer => match files.joiner {
                None => Err(
                    ErrorView::Backend("transducer model family requires a joiner file"@),
                ),
                Some(joiner) => match (
                    super::files::utf8_of(files.encoder),
                    super::files::utf8_of(files.decoder),
                    super::files::utf8_of(joiner),
                    super::files::utf8_of(files.tokens),
                ) {
                    (Err(error), _, _, _) => Err(error),
                    (_, Err(error), _, _) => Err(error),
                    (_, _, Err(error), _) => Err(error),
                    (_, _, _, Err(error)) => Err(error),
                    (Ok(encoder), Ok(decoder), Ok(joiner), Ok(tokens)) => Ok(
                        RecognizerConfigView {
                            transducer_encoder: Some(encoder),
                            transducer_decoder: Some(decoder),
                            transducer_joiner: Some(joiner),
                            tokens: Some(tokens),
                            ..self.settings()
                        },
                    ),
                },
            },
            ModelFamily::Paraformer => match (
                super::files::utf8_of(files.encoder),
                super::files::utf8_of(files.decoder),
                super::files::utf8_of(files.tokens),
            ) {
                (Err(error), _, _) => Err(error),
                (_, Err(error), _) => Err(error),
                (_, _, Err(error)) => Err(error),
                (Ok(encoder), Ok(decoder), Ok(tokens)) => Ok(
                    RecognizerConfigView {
                        paraformer_encoder: Some(encoder),
                        paraformer_decoder: Some(decoder),
                        tokens: Some(tokens),
                        ..self.settings()
                    },
                ),
            },
        }
    }
}

impl SherpaOnnxConfig {
    /// What to create the recognizer with, given where the model files are.
    pub fn recognizer_config(&self, files: &ModelFiles) -> (result: Result<
        RecognizerConfig,
        AsrError,
    >)
        ensures
            match self@.recognizer_config(*files) {
                Ok(view) => result matches Ok(config) && config@ == view,
                Err(why) => result matches Err(error) && error@ == why,
            },
    {
        let transducer: TransducerPaths;
        let paraformer: ParaformerPaths;
        match self.family {
            ModelFamily::Transducer => {
                let joiner = match &files.joiner {
                    Some(joiner) => joiner,
                    None => {
                        return Err(
                            AsrError::Backend(
                                "transducer model family requires a joiner file".to_string(),
                            ),
                        );
                    },
                };
                transducer =
                TransducerPaths {
                    encoder: Some(path_to_string(&files.encoder)?),
                    decoder: Some(path_to_string(&files.decoder)?),
                    joiner: Some(path_to_string(joiner)?),
                };
                paraformer = ParaformerPaths { encoder: None, decoder: None };
            },
            ModelFamily::Paraformer => {
                transducer = TransducerPaths { encoder: None, decoder: None, joiner: None };
                paraformer =
                ParaformerPaths {
                    encoder: Some(path_to_string(&files.encoder)?),
                    decoder: Some(path_to_string(&files.decoder)?),
                };
            },
        }
        Ok(
            RecognizerConfig {
                transducer,
                paraformer,
                tokens: Some(path_to_string(&files.tokens)?),
                num_threads: if self.num_threads < 1 {
                    1
                } else {
                    self.num_threads
                },
                provider: Some("cpu".to_string()),
                decoding_method: Some(self.decoding_method.as_str().to_string()),
                enable_endpoint: self.enable_endpoint,
                rule1_min_trailing_silence: F32Bits { bits: RULE1_BITS },
                rule2_min_trailing_silence: self.rule2_min_trailing_silence,
                rule3_min_utterance_length: F32Bits { bits: RULE3_BITS },
            },
        )
    }
}

} // verus!
