//! sherpa-onnx streaming ASR backend.
//!
//! Drives a streaming recognizer around a Zipformer transducer or a
//! Paraformer. The default configuration loads the bilingual EN+ZH
//! checkpoint from the sherpa-onnx pretrained zoo; if the model files aren't
//! already on disk they're fetched from HuggingFace on first use.
//!
//! Single-channel only ([`crate::Channel::Local`]), 16 kHz input only.
//!
//! The recognizer itself is a native library, so the crate does not call it.
//! Opening a session ([`SherpaOnnxAsr::with_config`]) takes closures that
//! reach the file system, the hub and the native library. A running session
//! names the recognizer calls to make and is told what they returned:
//!
//! ```text
//! push_audio / finish ──▶ RecognizerCall ──▶ (the application makes it)
//!                               ▲                       │
//!                               │                       ▼
//!                             pump  ◀────────── RecognizerReply
//!                               │
//!                               ▼
//!                        TranscriptEvent on the receiver
//! ```

pub mod config;
pub mod files;
pub mod laws;
pub mod opening_laws;
pub mod preset;
pub mod session;
pub mod setup;

pub use crate::download::DownloadProgress;
pub use config::{
    DecodingMethod, ParaformerPaths, RecognizerConfig, SherpaOnnxConfig, TransducerPaths,
};
pub use files::{
    download_from_hf, load_from_dir, path_to_string, resolve_model_files, utf8_text, ModelFiles,
};
pub use preset::{
    bilingual_zh_en, download_preset_with_progress, paraformer_bilingual_zh_en, paraformer_zh,
    pick_preset, zipformer_en, ModelFamily, ModelPreset,
};
pub use session::{RecognizerCall, RecognizerReply, SherpaOnnxAsr};
pub use setup::Opened;
