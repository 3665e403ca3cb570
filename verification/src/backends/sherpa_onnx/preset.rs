//! The bundled models.

use std::path::PathBuf;
use vstd::prelude::*;

use crate::download::batch::download_files_with_progress;
use crate::download::cache::{is_repo_cached, CacheEnv, Snapshot};
use crate::download::progress::CallbackProgress;
use crate::text::{join, same};
use crate::AsrError;

verus! {

/// Streaming model family.
///
/// Different architectures need different recognizer config slots:
/// transducer uses encoder+decoder+joiner, Paraformer uses just
/// encoder+decoder.
#[derive(Debug, Clone, Copy, PartialEq, Eq, Structural)]
pub enum ModelFamily {
    /// k2 Zipformer transducer (encoder + decoder + joiner).
    Transducer,
    /// Alibaba/FunASR Paraformer (encoder + decoder; no joiner).
    Paraformer,
}

/// A bundled-model preset that fills in `model_id`, model family, and
/// the per-file names for [`SherpaOnnxConfig`](super::SherpaOnnxConfig).
#[derive(Debug, Clone)]
pub struct ModelPreset {
    /// HuggingFace repo id.
    pub model_id: &'static str,
    /// Architecture family: determines which recognizer config slot is used.
    pub family: ModelFamily,
    /// Encoder filename inside the repo / model directory.
    pub encoder: &'static str,
    /// Decoder filename inside the repo / model directory.
    pub decoder: &'static str,
    /// Joiner filename. `Some(...)` for [`Transducer`](ModelFamily::Transducer),
    /// `None` for [`Paraformer`](ModelFamily::Paraformer).
    pub joiner: Option<&'static str>,
    /// Tokens filename.
    pub tokens: &'static str,
    /// Approximate total on-disk size of the files this preset pulls
    /// from HuggingFace, in bytes. A static estimate, useful for consumers
    /// that want to show a "Download (~N MB)" label before kicking off a
    /// fetch.
    pub approx_size_bytes: u64,
}

/// What a [`ModelPreset`] says.
pub struct PresetView {
    pub model_id: Seq<char>,
    pub family: ModelFamily,
    pub encoder: Seq<char>,
    pub decoder: Seq<char>,
    pub joiner: Option<Seq<char>>,
    pub tokens: Seq<char>,
    pub approx_size_bytes: nat,
}

impl View for ModelPreset {
    type V = PresetView;

    open spec fn view(&self) -> PresetView {
        PresetView {
            model_id: self.model_id@,
            family: self.family,
            encoder: self.encoder@,
            decoder: self.decoder@,
            joiner: match self.joiner {
                Some(name) => Some(name@),
                None => None,
            },
            tokens: self.tokens@,
            approx_size_bytes: self.approx_size_bytes as nat,
        }
    }
}

impl PresetView {
    /// The files of the preset, in download order.
    pub open spec fn files(self) -> Seq<Seq<char>> {
        match self.joiner {
            Some(joiner) => seq![self.encoder, self.decoder, joiner, self.tokens],
            None => seq![self.encoder, self.decoder, self.tokens],
        }
    }

    /// Whether the preset names the files of its family: a joiner for a
    /// transducer, none for a Paraformer.
    pub open spec fn is_consistent(self) -> bool {
        self.family == ModelFamily::Transducer <==> self.joiner is Some
    }

    /// What [`bilingual_zh_en`] says.
    pub open spec fn bilingual_zh_en() -> PresetView {
        PresetView {
            model_id: "csukuangfj/sherpa-onnx-streaming-zipformer-bilingual-zh-en-2023-02-20"@,
            family: ModelFamily::Transducer,
            encoder: "encoder-epoch-99-avg-1.int8.onnx"@,
            decoder: "decoder-epoch-99-avg-1.onnx"@,
            joiner: Some("joiner-epoch-99-avg-1.int8.onnx"@),
            tokens: "tokens.txt"@,
            approx_size_bytes: 85_000_000,
        }
    }

    /// What [`zipformer_en`] says.
    pub open spec fn zipformer_en() -> PresetView {
        PresetView {
            model_id: "csukuangfj/sherpa-onnx-streaming-zipformer-en-2023-06-26"@,
            family: ModelFamily::Transducer,
            encoder: "encoder-epoch-99-avg-1-chunk-16-left-128.int8.onnx"@,
            decoder: "decoder-epoch-99-avg-1-chunk-16-left-128.onnx"@,
            joiner: Some("joiner-epoch-99-avg-1-chunk-16-left-128.int8.onnx"@),
            tokens: "tokens.txt"@,
            approx_size_bytes: 110_000_000,
        }
    }

    /// What [`paraformer_zh`] says.
    pub open spec fn paraformer_zh() -> PresetView {
        PresetView {
            model_id: "csukuangfj/sherpa-onnx-streaming-paraformer-zh"@,
            family: ModelFamily::Paraformer,
            encoder: "encoder.int8.onnx"@,
            decoder: "decoder.int8.onnx"@,
            joiner: None,
            tokens: "tokens.txt"@,
            approx_size_bytes: 75_000_000,
        }
    }

    /// What [`paraformer_bilingual_zh_en`] says.
    pub open spec fn paraformer_bilingual_zh_en() -> PresetView {
        PresetView {
            model_id: "csukuangfj/sherpa-onnx-streaming-paraformer-bilingual-zh-en"@,
            family: ModelFamily::Paraformer,
            encoder: "encoder.int8.onnx"@,
            decoder: "decoder.int8.onnx"@,
            joiner: None,
            tokens: "tokens.txt"@,
            approx_size_bytes: 70_000_000,
        }
    }
}

impl ModelPreset {
    /// Files this preset pulls from HuggingFace, in download order: encoder,
    /// decoder, joiner (transducer only), tokens.
    pub fn files(&self) -> (files: Vec<&'static str>)
        ensures
            crate::download::cache::texts(files@) == self@.files(),
    {
        let mut files: Vec<&'static str> = Vec::with_capacity(4);
        files.push(self.encoder);
        files.push(self.decoder);
        if let Some(joiner) = self.joiner {
            files.push(joiner);
        }
        files.push(self.tokens);
        files
    }

    /// `true` iff every file this preset declares is already in the local
    /// HuggingFace Hub cache. Convenience wrapper around [`is_repo_cached`].
    ///
    /// Use to decide whether a UI should render a "Download" affordance
    /// (returns `false`) or a "Ready" indicator (returns `true`)
    /// without risking a silent download on a cold cache.
    pub fn is_cached<L>(&self, env: CacheEnv, list: L) -> (cached: bool)
        where L: Fn(&PathBuf, &[&str]) -> Option<Vec<Snapshot>>,
        requires
            crate::download::cache::cache_root(env) matches Some(root) ==> forall|files: &[&str]|
                crate::download::cache::texts(files@) == self@.files() ==> #[trigger] call_requires(
                    list,
                    (&crate::download::cache::snapshots_of(root, self@.model_id), files),
                ),
        ensures
            exists|files: &[&str]|
                {
                    &&& crate::download::cache::texts(files@) == self@.files()
                    &&& #[trigger] crate::download::cache::probe_gave(
                        self@.model_id,
                        files,
                        env,
                        list,
                        cached,
                    )
                },
    {
        let list_of_files: Vec<&'static str> = self.files();
        let files: &[&str] = list_of_files.as_slice();
        assert(self@.model_id == self.model_id@);
        is_repo_cached(self.model_id, files, env, list)
    }
}

/// Bilingual EN+ZH streaming Zipformer (default). Handles mixed-language
/// speech but can over-produce Hanzi for English-only audio.
pub fn bilingual_zh_en() -> (preset: ModelPreset)
    ensures
        preset@ == PresetView::bilingual_zh_en(),
        preset@.is_consistent(),
{
    ModelPreset {
        model_id: "csukuangfj/sherpa-onnx-streaming-zipformer-bilingual-zh-en-2023-02-20",
        family: ModelFamily::Transducer,
        encoder: "encoder-epoch-99-avg-1.int8.onnx",
        decoder: "decoder-epoch-99-avg-1.onnx",
        joiner: Some("joiner-epoch-99-avg-1.int8.onnx"),
        tokens: "tokens.txt",
        approx_size_bytes: 85 * 1_000_000,
    }
}

/// English-only streaming Zipformer. Best WER on English; will hallucinate
/// on Chinese input.
pub fn zipformer_en() -> (preset: ModelPreset)
    ensures
        preset@ == PresetView::zipformer_en(),
        preset@.is_consistent(),
{
    ModelPreset {
        model_id: "csukuangfj/sherpa-onnx-streaming-zipformer-en-2023-06-26",
        family: ModelFamily::Transducer,
        encoder: "encoder-epoch-99-avg-1-chunk-16-left-128.int8.onnx",
        decoder: "decoder-epoch-99-avg-1-chunk-16-left-128.onnx",
        joiner: Some("joiner-epoch-99-avg-1-chunk-16-left-128.int8.onnx"),
        tokens: "tokens.txt",
        approx_size_bytes: 110 * 1_000_000,
    }
}

/// Chinese-only streaming Paraformer (FunASR). Often beats the bilingual
/// Zipformer on Mandarin WER; useless for English.
pub fn paraformer_zh() -> (preset: ModelPreset)
    ensures
        preset@ == PresetView::paraformer_zh(),
        preset@.is_consistent(),
{
    ModelPreset {
        model_id: "csukuangfj/sherpa-onnx-streaming-paraformer-zh",
        family: ModelFamily::Paraformer,
        encoder: "encoder.int8.onnx",
        decoder: "decoder.int8.onnx",
        joiner: None,
        tokens: "tokens.txt",
        approx_size_bytes: 75 * 1_000_000,
    }
}

/// Bilingual EN+ZH streaming Paraformer (FunASR). ZH-leaning bilingual
/// alternative to the default Zipformer.
pub fn paraformer_bilingual_zh_en() -> (preset: ModelPreset)
    ensures
        preset@ == PresetView::paraformer_bilingual_zh_en(),
        preset@.is_consistent(),
{
    ModelPreset {
        model_id: "csukuangfj/sherpa-onnx-streaming-paraformer-bilingual-zh-en",
        family: ModelFamily::Paraformer,
        encoder: "encoder.int8.onnx",
        decoder: "decoder.int8.onnx",
        joiner: None,
        tokens: "tokens.txt",
        approx_size_bytes: 70 * 1_000_000,
    }
}

/// The preset a user asks for by name, and whether the name is known. An
/// unknown name stands for the bilingual preset, as an empty one does.
pub open spec fn preset_named(name: Seq<char>) -> (PresetView, bool) {
    if name == ""@ || name == "bilingual"@ || name == "bilingual-zh-en"@ {
        (PresetView::bilingual_zh_en(), true)
    } else if name == "en"@ || name == "english"@ || name == "zipformer-en"@ {
        (PresetView::zipformer_en(), true)
    } else if name == "zh"@ || name == "chinese"@ || name == "paraformer-zh"@ {
        (PresetView::paraformer_zh(), true)
    } else if name == "paraformer-zh-en"@ || name == "paraformer-bilingual"@ {
        (PresetView::paraformer_bilingual_zh_en(), true)
    } else {
        (PresetView::bilingual_zh_en(), false)
    }
}

/// Pick a preset by the name given in `WAVEKAT_ASR_PRESET`, with a note for
/// the user where the name is not known.
pub fn pick_preset(name: &str) -> (choice: (ModelPreset, Option<String>))
    ensures
        choice.0@ == preset_named(name@).0,
        match choice.1 {
            Some(note) => !preset_named(name@).1 && note@ == "unknown WAVEKAT_ASR_PRESET `"@ + name@
                + "`; falling back to `bilingual`"@,
            None => preset_named(name@).1,
        },
{
    if same(name, "") || same(name, "bilingual") || same(name, "bilingual-zh-en") {
        return (bilingual_zh_en(), None);
    }
    if same(name, "en") || same(name, "english") || same(name, "zipformer-en") {
        return (zipformer_en(), None);
    }
    if same(name, "zh") || same(name, "chinese") || same(name, "paraformer-zh") {
        return (paraformer_zh(), None);
    }
    if same(name, "paraformer-zh-en") || same(name, "paraformer-bilingual") {
        return (paraformer_bilingual_zh_en(), None);
    }
    let mut note: String = join("unknown WAVEKAT_ASR_PRESET `", name);
    note.append("`; falling back to `bilingual`");
    (bilingual_zh_en(), Some(note))
}

/// Download every file `preset` needs from HuggingFace into `dest_dir`,
/// reporting byte progress as it goes.
///
/// Thin wrapper over [`download_files_with_progress`] that knows how to turn
/// a [`ModelPreset`] into a `(repo_id, files)` pair. On success the directory
/// holds all files named by [`ModelPreset::files`] and is directly loadable
/// as a config's `model_dir`.
pub fn download_preset_with_progress<H, W, M, C, D, P>(
    preset: ModelPreset,
    dest_dir: &PathBuf,
    make_dir: M,
    connect: C,
    fetch: D,
    copy: P,
    outside: W,
) -> (outcome: (Result<(), AsrError>, W))
    where
        M: Fn(&PathBuf, W) -> (Result<(), String>, W),
        C: Fn(&str, W) -> (Result<H, String>, W),
        D: Fn(&H, &str, CallbackProgress, W) -> (Result<PathBuf, String>, W),
        P: Fn(&PathBuf, &PathBuf, W) -> (Result<(), String>, W),
    requires
        forall|files: Seq<&str>|
            crate::download::cache::texts(files) == preset@.files()
                ==> #[trigger] crate::download::batch::download_is_admitted::<H, W, M, C, D, P>(
                preset.model_id,
                files,
                *dest_dir,
                make_dir,
                connect,
                fetch,
                copy,
                outside,
            ),
    ensures
        exists|files: Seq<&str>|
            {
                &&& crate::download::cache::texts(files) == preset@.files()
                &&& #[trigger] crate::download::batch::download_came_to::<H, W, M, C, D, P>(
                    preset.model_id,
                    files,
                    *dest_dir,
                    make_dir,
                    connect,
                    fetch,
                    copy,
                    outside,
                    outcome.0,
                    outcome.1,
                )
            },
{
    let files: Vec<&'static str> = preset.files();
    download_files_with_progress(
        preset.model_id,
        files.as_slice(),
        dest_dir,
        make_dir,
        connect,
        fetch,
        copy,
        outside,
    )
}

} // verus!
