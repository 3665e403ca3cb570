//! Opening a session: find the model, create the recognizer, start.

use std::path::PathBuf;
use std::sync::mpsc::Receiver;
use vstd::prelude::*;

use super::config::{ConfigView, RecognizerConfig, RecognizerConfigView, SherpaOnnxConfig};
use super::files::{resolve_model_files, ModelFiles};
use super::preset::{ModelPreset, PresetView};
use super::session::{SessionView, SherpaOnnxAsr};
use crate::error::ErrorView;
use crate::{AsrError, TranscriptEvent};

verus! {

/// A session that was opened: the session itself, the recognizer that was
/// created for it, and the receiver of its events.
pub struct Opened<R> {
    pub session: SherpaOnnxAsr,
    pub recognizer: R,
    pub events: Receiver<TranscriptEvent>,
}

/// What opening a session comes to, once its model files are found: the
/// recognizer is created as the configuration says, and a fresh session
/// starts with it.
pub open spec fn creation_came_to<R, W, K>(
    config: ConfigView,
    files: ModelFiles,
    create: K,
    start: W,
    result: Result<Opened<R>, AsrError>,
    now: W,
) -> bool where K: Fn(&RecognizerConfig, W) -> (Option<R>, W) {
    match config.recognizer_config(files) {
        Err(why) => result matches Err(error) && error@ == why && now == start,
        Ok(settings) => exists|asked: RecognizerConfig, made: Option<R>|
            {
                &&& asked@ == settings
                &&& #[trigger] call_ensures(create, (&asked, start), (made, now))
                &&& match made {
                    None => result matches Err(error) && error@ == ErrorView::Backend(
                        "OnlineRecognizer::create returned null"@,
                    ),
                    Some(recognizer) => result matches Ok(opened) && opened.recognizer
                        == recognizer && opened.session@ == SessionView::started(
                        crate::outside::channel_read(opened.events),
                    ) && opened.session.feeds(opened.events),
                }
            },
    }
}

/// What opening a session comes to: the first thing that goes wrong decides,
/// and nothing is done after it.
pub open spec fn opening_came_to<H, R, W, P, C, D, K>(
    config: ConfigView,
    env_dir: Option<PathBuf>,
    on_disk: P,
    connect: C,
    fetch: D,
    create: K,
    start: W,
    result: Result<Opened<R>, AsrError>,
    now: W,
) -> bool where
    P: Fn(&PathBuf) -> bool,
    C: Fn(&str, W) -> (Result<H, String>, W),
    D: Fn(&H, &str, W) -> (Result<PathBuf, String>, W),
    K: Fn(&RecognizerConfig, W) -> (Option<R>, W),
 {
    exists|found: Result<ModelFiles, AsrError>, searched: W|
        {
            &&& #[trigger] super::files::model_files_gave::<H, W, P, C, D>(
                config,
                env_dir,
                on_disk,
                connect,
                fetch,
                start,
                found,
                searched,
            )
            &&& match found {
                Err(error) => result == Err::<Opened<R>, AsrError>(error) && now == searched,
                Ok(files) => creation_came_to(config, files, create, searched, result, now),
            }
        }
}

/// What may be asked to open a session: what the search for its model files
/// asks, and then a recognizer for the files that were found, with the
/// settings they and the configuration lead to.
pub open spec fn opening_is_admitted<H, R, W, P, C, D, K>(
    config: ConfigView,
    env_dir: Option<PathBuf>,
    on_disk: P,
    connect: C,
    fetch: D,
    create: K,
    start: W,
) -> bool where
    P: Fn(&PathBuf) -> bool,
    C: Fn(&str, W) -> (Result<H, String>, W),
    D: Fn(&H, &str, W) -> (Result<PathBuf, String>, W),
    K: Fn(&RecognizerConfig, W) -> (Option<R>, W),
 {
    &&& super::files::search_is_admitted::<H, W, P, C, D>(
        config,
        env_dir,
        on_disk,
        connect,
        fetch,
        start,
    )
    &&& forall|files: ModelFiles, settings: &RecognizerConfig, now: W|
        {
            &&& #[trigger] super::files::model_files_gave::<H, W, P, C, D>(
                config,
                env_dir,
                on_disk,
                connect,
                fetch,
                start,
                Ok::<ModelFiles, AsrError>(files),
                now,
            )
            &&& config.recognizer_config(files) == Ok::<RecognizerConfigView, ErrorView>(settings@)
        } ==> #[trigger] call_requires(create, (settings, now))
}

impl SherpaOnnxAsr {
    /// Open a session with default config (fetches the bilingual EN+ZH
    /// Zipformer from HuggingFace if not cached). See
    /// [`with_config`](Self::with_config).
    pub fn new<H, R, W, P, C, D, K>(
        env_dir: Option<PathBuf>,
        on_disk: P,
        connect: C,
        fetch: D,
        create: K,
        outside: W,
    ) -> (outcome: (Result<Opened<R>, AsrError>, W))
        where
            P: Fn(&PathBuf) -> bool,
            C: Fn(&str, W) -> (Result<H, String>, W),
            D: Fn(&H, &str, W) -> (Result<PathBuf, String>, W),
            K: Fn(&RecognizerConfig, W) -> (Option<R>, W),
        requires
            opening_is_admitted::<H, R, W, P, C, D, K>(
                ConfigView::of_preset(PresetView::bilingual_zh_en()),
                env_dir,
                on_disk,
                connect,
                fetch,
                create,
                outside,
            ),
        ensures
            opening_came_to::<H, R, W, P, C, D, K>(
                ConfigView::of_preset(PresetView::bilingual_zh_en()),
                env_dir,
                on_disk,
                connect,
                fetch,
                create,
                outside,
                outcome.0,
                outcome.1,
            ),
    {
        Self::with_config(
            SherpaOnnxConfig::default(),
            env_dir,
            on_disk,
            connect,
            fetch,
            create,
            outside,
        )
    }

    /// Open a session from one of the bundled [`ModelPreset`]s. See
    /// [`with_config`](Self::with_config).
    pub fn with_preset<H, R, W, P, C, D, K>(
        preset: ModelPreset,
        env_dir: Option<PathBuf>,
        on_disk: P,
        connect: C,
        fetch: D,
        create: K,
        outside: W,
    ) -> (outcome: (Result<Opened<R>, AsrError>, W))
        where
            P: Fn(&PathBuf) -> bool,
            C: Fn(&str, W) -> (Result<H, String>, W),
            D: Fn(&H, &str, W) -> (Result<PathBuf, String>, W),
            K: Fn(&RecognizerConfig, W) -> (Option<R>, W),
        requires
            opening_is_admitted::<H, R, W, P, C, D, K>(
                ConfigView::of_preset(preset@),
                env_dir,
                on_disk,
                connect,
                fetch,
                create,
                outside,
            ),
        ensures
            opening_came_to::<H, R, W, P, C, D, K>(
                ConfigView::of_preset(preset@),
                env_dir,
                on_disk,
                connect,
                fetch,
                create,
                outside,
                outcome.0,
                outcome.1,
            ),
    {
        Self::with_config(
            SherpaOnnxConfig::from_preset(preset),
            env_dir,
            on_disk,
            connect,
            fetch,
            create,
            outside,
        )
    }

    /// Open a session with the given config.
    ///
    /// `env_dir` is the directory that `WAVEKAT_ASR_MODEL_DIR` names, if it
    /// is set. `on_disk` tells whether a path exists, `connect` opens a repo on
    /// the hub, `fetch` gives the path of one of its files, and `create`
    /// creates the recognizer, or nothing where the native library refuses.
    /// The last three take `outside` and give it back.
    pub fn with_config<H, R, W, P, C, D, K>(
        config: SherpaOnnxConfig,
        env_dir: Option<PathBuf>,
        on_disk: P,
        connect: C,
        fetch: D,
        create: K,
        outside: W,
    ) -> (outcome: (Result<Opened<R>, AsrError>, W))
        where
            P: Fn(&PathBuf) -> bool,
            C: Fn(&str, W) -> (Result<H, String>, W),
            D: Fn(&H, &str, W) -> (Result<PathBuf, String>, W),
            K: Fn(&RecognizerConfig, W) -> (Option<R>, W),
        requires
            opening_is_admitted::<H, R, W, P, C, D, K>(
                config@,
                env_dir,
                on_disk,
                connect,
                fetch,
                create,
                outside,
            ),
        ensures
            opening_came_to::<H, R, W, P, C, D, K>(
                config@,
                env_dir,
                on_disk,
                connect,
                fetch,
                create,
                outside,
                outcome.0,
                outcome.1,
            ),
    {
        let (found, now) = resolve_model_files(
            &config,
            &env_dir,
            &on_disk,
            &connect,
            &fetch,
            outside,
        );
        let files: ModelFiles = match found {
            Ok(files) => files,
            Err(error) => {
                return (Err(error), now);
            },
        };
        let settings: RecognizerConfig = match config.recognizer_config(&files) {
            Ok(settings) => settings,
            Err(error) => {
                return (Err(error), now);
            },
        };
        let (made, now) = create(&settings, now);
        match made {
            None => (
                Err(AsrError::Backend("OnlineRecognizer::create returned null".to_string())),
                now,
            ),
            Some(recognizer) => {
                let (session, events) = SherpaOnnxAsr::start();
                (Ok(Opened { session, recognizer, events }), now)
            },
        }
    }
}

} // verus!
