//! Finding the model files: in a local directory, or on the HuggingFace Hub.
//!
//! The functions here decide which files are asked for, and when. What they
//! require of a closure is that it can take those calls and no others.
//! Closures that reach the hub take the caller's hand on the outside world
//! and give it back, as in [`crate::download::batch`], so a contract fixes the
//! calls made on the hub, each once and in order.

use std::path::PathBuf;
use vstd::prelude::*;

use super::config::{ConfigView, SherpaOnnxConfig};
use super::preset::{ModelFamily, PresetView};
use crate::download::progress::CallbackProgress;
use crate::error::ErrorView;
use crate::outside::{path_display, path_join, path_to_str};
use crate::AsrError;

verus! {

/// The text of a path that has one, or the error that it has none.
pub open spec fn text_or_error(text: Option<Seq<char>>, shown: Seq<char>) -> Result<
    Seq<char>,
    ErrorView,
> {
    match text {
        Some(text) => Ok(text),
        None => Err(ErrorView::Backend("non-UTF-8 path: "@ + shown)),
    }
}

/// The UTF-8 form of a path, or the error that it has none.
pub open spec fn utf8_of(path: PathBuf) -> Result<Seq<char>, ErrorView> {
    text_or_error(crate::outside::path_text(path), crate::outside::path_shown(path))
}

/// The text of a path, given what it is, if it is UTF-8, and how the path is
/// shown to a user in any case.
pub fn utf8_text(text: Option<&str>, shown: &str) -> (result: Result<String, AsrError>)
    ensures
        match text {
            Some(text) => result matches Ok(s) && s@ == text@,
            None => result matches Err(error) && Err::<Seq<char>, ErrorView>(error@)
                == text_or_error(None, shown@),
        },
{
    match text {
        Some(text) => Ok(text.to_string()),
        None => Err(AsrError::Backend(crate::text::join("non-UTF-8 path: ", shown))),
    }
}

/// The UTF-8 form of a path.
pub fn path_to_string(path: &PathBuf) -> (result: Result<String, AsrError>)
    ensures
        match utf8_of(*path) {
            Ok(text) => result matches Ok(s) && s@ == text,
            Err(why) => result matches Err(error) && error@ == why,
        },
{
    let shown: String = path_display(path);
    utf8_text(path_to_str(path), shown.as_str())
}

/// Where the files of a model are.
#[derive(Debug)]
pub struct ModelFiles {
    pub encoder: PathBuf,
    pub decoder: PathBuf,
    /// `Some` for transducer family, `None` for Paraformer.
    pub joiner: Option<PathBuf>,
    pub tokens: PathBuf,
}

impl ConfigView {
    /// The files a configuration asks for, in the order they are looked up:
    /// the joiner of a transducer, the encoder, the decoder, the tokens.
    /// `None` for a transducer that names no joiner.
    pub open spec fn wanted_files(self) -> Option<Seq<Seq<char>>> {
        match (self.family, self.joiner_filename) {
            (ModelFamily::Transducer, Some(joiner)) => Some(
                seq![joiner, self.encoder_filename, self.decoder_filename, self.tokens_filename],
            ),
            (ModelFamily::Transducer, None) => None,
            (ModelFamily::Paraformer, _) => Some(
                seq![self.encoder_filename, self.decoder_filename, self.tokens_filename],
            ),
        }
    }

    /// The files found, each in its place.
    pub open spec fn assembled(self, found: Seq<PathBuf>) -> ModelFiles {
        match self.family {
            ModelFamily::Transducer => ModelFiles {
                joiner: Some(found[0]),
                encoder: found[1],
                decoder: found[2],
                tokens: found[3],
            },
            ModelFamily::Paraformer => ModelFiles {
                joiner: None,
                encoder: found[0],
                decoder: found[1],
                tokens: found[2],
            },
        }
    }
}

/// The error where a transducer names no joiner.
pub open spec fn no_joiner_named() -> ErrorView {
    ErrorView::Backend("transducer family requires joiner_filename"@)
}

/// The error where a directory lacks a file.
pub open spec fn file_missing(path: PathBuf) -> ErrorView {
    ErrorView::Backend("model file not found: "@ + crate::outside::path_shown(path))
}

/// The paths of these names below a directory.
pub open spec fn paths_in(dir: PathBuf, names: Seq<Seq<char>>) -> Seq<PathBuf> {
    names.map_values(|name: Seq<char>| crate::outside::path_joined(dir, name))
}

/// The first `n` of these paths were looked at, and each was there.
pub open spec fn all_there<P>(paths: Seq<PathBuf>, n: int, on_disk: P) -> bool where
    P: Fn(&PathBuf) -> bool,
 {
    forall|i: int| 0 <= i < n ==> call_ensures(on_disk, (&#[trigger] paths[i],), true)
}

/// What a lookup in a directory may ask: each file the configuration asks
/// for, in order, while all before it were there.
pub open spec fn lookup_is_admitted<P>(dir: PathBuf, config: ConfigView, on_disk: P) -> bool where
    P: Fn(&PathBuf) -> bool,
 {
    config.wanted_files() matches Some(names) ==> {
        let paths = paths_in(dir, names);
        forall|n: int|
            0 <= n < paths.len() && all_there(paths, n, on_disk) ==> call_requires(
                on_disk,
                (&#[trigger] paths[n],),
            )
    }
}

/// What a lookup in a directory gives: the paths of the files the
/// configuration asks for, or the first one of them that is not there as the
/// error.
pub open spec fn directory_gave<P>(
    dir: PathBuf,
    config: ConfigView,
    on_disk: P,
    result: Result<ModelFiles, AsrError>,
) -> bool where P: Fn(&PathBuf) -> bool {
    match config.wanted_files() {
        None => result matches Err(error) && error@ == no_joiner_named(),
        Some(names) => {
            let paths = paths_in(dir, names);
            match result {
                Ok(files) => all_there(paths, paths.len() as int, on_disk) && files
                    == config.assembled(paths),
                Err(error) => exists|n: int|
                    {
                        &&& 0 <= n < paths.len()
                        &&& all_there(paths, n, on_disk)
                        &&& call_ensures(on_disk, (&#[trigger] paths[n],), false)
                        &&& error@ == file_missing(paths[n])
                    },
            }
        },
    }
}

/// The files a configuration asks for, in the order they are looked up.
fn wanted_files(config: &SherpaOnnxConfig) -> (result: Result<Vec<String>, AsrError>)
    ensures
        match config@.wanted_files() {
            Some(names) => result matches Ok(list) && list@.map_values(|s: String| s@) == names,
            None => result matches Err(error) && error@ == no_joiner_named(),
        },
{
    let mut names: Vec<String> = Vec::with_capacity(4);
    match config.family {
        ModelFamily::Transducer => {
            match &config.joiner_filename {
                Some(joiner) => names.push(joiner.clone()),
                None => {
                    return Err(
                        AsrError::Backend("transducer family requires joiner_filename".to_string()),
                    );
                },
            }
        },
        ModelFamily::Paraformer => {},
    }
    names.push(config.encoder_filename.clone());
    names.push(config.decoder_filename.clone());
    names.push(config.tokens_filename.clone());
    Ok(names)
}

/// Puts each file found in its place.
fn assemble(config: &SherpaOnnxConfig, found: Vec<PathBuf>) -> (files: ModelFiles)
    requires
        config@.wanted_files() is Some,
        found.len() == config@.wanted_files()->0.len(),
    ensures
        files == config@.assembled(found@),
{
    let mut rest: Vec<PathBuf> = found;
    let tokens: PathBuf = rest.pop().unwrap();
    let decoder: PathBuf = rest.pop().unwrap();
    let encoder: PathBuf = rest.pop().unwrap();
    let joiner: Option<PathBuf> = rest.pop();
    ModelFiles { encoder, decoder, joiner, tokens }
}

/// Find the model files in `dir`. `on_disk` tells whether a path exists.
pub fn load_from_dir<P>(dir: &PathBuf, config: &SherpaOnnxConfig, on_disk: &P) -> (result: Result<
    ModelFiles,
    AsrError,
>)
    where P: Fn(&PathBuf) -> bool,
    requires
        lookup_is_admitted(*dir, config@, *on_disk),
    ensures
        directory_gave(*dir, config@, *on_disk, result),
{
    let names: Vec<String> = match wanted_files(config) {
        Ok(names) => names,
        Err(error) => {
            return Err(error);
        },
    };
    let ghost wanted = config@.wanted_files()->0;
    let ghost paths = paths_in(*dir, wanted);
    let mut found: Vec<PathBuf> = Vec::with_capacity(4);
    for i in 0..names.len()
        invariant
            lookup_is_admitted(*dir, config@, *on_disk),
            config@.wanted_files() is Some,
            config@.wanted_files()->0 == wanted,
            names@.map_values(|s: String| s@) == wanted,
            paths == paths_in(*dir, wanted),
            all_there(paths, i as int, *on_disk),
            found@ == paths.take(i as int),
    {
        let path: PathBuf = path_join(dir, names[i].as_str());
        if !on_disk(&path) {
            let shown: String = path_display(&path);
            return Err(
                AsrError::Backend(crate::text::join("model file not found: ", shown.as_str())),
            );
        }
        found.push(path);
    }
    Ok(assemble(config, found))
}

/// A file of this name was fetched from the hub, and this is where it is, or
/// why it is nowhere.
pub open spec fn fetched<H, W, D>(
    hub: H,
    name: Seq<char>,
    fetch: D,
    before: W,
    outcome: Result<PathBuf, String>,
    now: W,
) -> bool where D: Fn(&H, &str, W) -> (Result<PathBuf, String>, W) {
    exists|s: &str| s@ == name && #[trigger] call_ensures(fetch, (&hub, s, before), (outcome, now))
}

/// The first of these files were fetched, in order, and delivered at these
/// paths, and nothing else was done.
pub open spec fn files_delivered<H, W, D>(
    hub: H,
    names: Seq<Seq<char>>,
    fetch: D,
    start: W,
    paths: Seq<PathBuf>,
    now: W,
) -> bool where D: Fn(&H, &str, W) -> (Result<PathBuf, String>, W)
    decreases paths.len(),
{
    if paths.len() == 0 {
        now == start
    } else {
        exists|before: W|
            {
                &&& files_delivered(hub, names, fetch, start, paths.drop_last(), before)
                &&& #[trigger] fetched(
                    hub,
                    names[paths.len() - 1],
                    fetch,
                    before,
                    Ok(paths.last()),
                    now,
                )
            }
    }
}

/// The first of these files were delivered, and the next one was not, for
/// this reason.
pub open spec fn delivery_failed<H, W, D>(
    hub: H,
    names: Seq<Seq<char>>,
    fetch: D,
    start: W,
    error: ErrorView,
    now: W,
) -> bool where D: Fn(&H, &str, W) -> (Result<PathBuf, String>, W) {
    exists|paths: Seq<PathBuf>, before: W, cause: String|
        {
            &&& paths.len() < names.len()
            &&& #[trigger] files_delivered(hub, names, fetch, start, paths, before)
            &&& #[trigger] fetched(
                hub,
                names[paths.len() as int],
                fetch,
                before,
                Err(cause),
                now,
            )
            &&& error == crate::download::batch::no_file(names[paths.len() as int], cause@)
        }
}

/// What the hub gives once it is there: the files the configuration asks
/// for, or the first one of them that it does not deliver as the error.
pub open spec fn repo_gave<H, W, D>(
    hub: H,
    config: ConfigView,
    fetch: D,
    start: W,
    result: Result<ModelFiles, AsrError>,
    now: W,
) -> bool where D: Fn(&H, &str, W) -> (Result<PathBuf, String>, W) {
    match (config.wanted_files(), result) {
        (None, Ok(_)) => false,
        (None, Err(error)) => error@ == no_joiner_named() && now == start,
        (Some(names), Ok(files)) => exists|paths: Seq<PathBuf>|
            {
                &&& paths.len() == names.len()
                &&& #[trigger] files_delivered(hub, names, fetch, start, paths, now)
                &&& files == config.assembled(paths)
            },
        (Some(names), Err(error)) => delivery_failed(hub, names, fetch, start, error@, now),
    }
}

/// The hub was asked for the configuration's repo, and answered this.
pub open spec fn hub_answered<H, W, C>(
    config: ConfigView,
    connect: C,
    start: W,
    outcome: Result<H, String>,
    now: W,
) -> bool where C: Fn(&str, W) -> (Result<H, String>, W) {
    exists|repo: &str|
        repo@ == config.model_id && #[trigger] call_ensures(connect, (repo, start), (outcome, now))
}

/// What the hub gives: it is asked for the configuration's repo first.
pub open spec fn hub_gave<H, W, C, D>(
    config: ConfigView,
    connect: C,
    fetch: D,
    start: W,
    result: Result<ModelFiles, AsrError>,
    now: W,
) -> bool where
    C: Fn(&str, W) -> (Result<H, String>, W),
    D: Fn(&H, &str, W) -> (Result<PathBuf, String>, W),
 {
    exists|outcome: Result<H, String>, ready: W|
        {
            &&& #[trigger] hub_answered(config, connect, start, outcome, ready)
            &&& match outcome {
                Err(cause) => result matches Err(error) && error@
                    == crate::download::batch::no_hub(cause@) && now == ready,
                Ok(hub) => repo_gave(hub, config, fetch, ready, result, now),
            }
        }
}

/// Whether a fetch of this name is due: the repo was opened, the name is one
/// of the files the configuration asks for, and all before it were delivered.
pub open spec fn fetch_is_due<H, W, C, D>(
    config: ConfigView,
    connect: C,
    fetch: D,
    start: W,
    hub: H,
    name: Seq<char>,
    now: W,
) -> bool where
    C: Fn(&str, W) -> (Result<H, String>, W),
    D: Fn(&H, &str, W) -> (Result<PathBuf, String>, W),
 {
    config.wanted_files() matches Some(names) && exists|ready: W, paths: Seq<PathBuf>|
        {
            &&& #[trigger] hub_answered(config, connect, start, Ok(hub), ready)
            &&& #[trigger] files_delivered(hub, names, fetch, ready, paths, now)
            &&& paths.len() < names.len()
            &&& name == names[paths.len() as int]
        }
}

/// What may be asked of the hub: the configuration's repo, and then the
/// files that are due.
pub open spec fn hub_is_admitted<H, W, C, D>(
    config: ConfigView,
    connect: C,
    fetch: D,
    start: W,
) -> bool where
    C: Fn(&str, W) -> (Result<H, String>, W),
    D: Fn(&H, &str, W) -> (Result<PathBuf, String>, W),
 {
    &&& forall|repo: &str|
        repo@ == config.model_id ==> #[trigger] call_requires(connect, (repo, start))
    &&& forall|hub: H, name: &str, now: W|
        #[trigger] fetch_is_due(config, connect, fetch, start, hub, name@, now) ==> call_requires(
            fetch,
            (&hub, name, now),
        )
}

/// Fetch the model files from the HuggingFace Hub, into its own cache.
/// `connect` opens a repo; `fetch` gives the cached path of one of its files,
/// downloading it first if need be.
pub fn download_from_hf<H, W, C, D>(
    config: &SherpaOnnxConfig,
    connect: &C,
    fetch: &D,
    outside: W,
) -> (outcome: (Result<ModelFiles, AsrError>, W))
    where
        C: Fn(&str, W) -> (Result<H, String>, W),
        D: Fn(&H, &str, W) -> (Result<PathBuf, String>, W),
    requires
        hub_is_admitted::<H, W, C, D>(config@, *connect, *fetch, outside),
    ensures
        hub_gave::<H, W, C, D>(config@, *connect, *fetch, outside, outcome.0, outcome.1),
{
    let ghost start = outside;
    let (answer, now) = connect(config.model_id.as_str(), outside);
    let ghost ready = now;
    assert(hub_answered(config@, *connect, start, answer, ready));
    let hub: H = match answer {
        Ok(hub) => hub,
        Err(cause) => {
            let message: String = crate::text::join("hf-hub init failed: ", cause.as_str());
            return (Err(AsrError::Backend(message)), now);
        },
    };
    let names: Vec<String> = match wanted_files(config) {
        Ok(names) => names,
        Err(error) => {
            return (Err(error), now);
        },
    };
    let ghost wanted = config@.wanted_files()->0;
    let mut found: Vec<PathBuf> = Vec::with_capacity(4);
    let mut hand: W = now;
    for i in 0..names.len()
        invariant
            start == outside,
            hub_is_admitted::<H, W, C, D>(config@, *connect, *fetch, start),
            hub_answered(config@, *connect, start, Ok(hub), ready),
            config@.wanted_files() is Some,
            config@.wanted_files()->0 == wanted,
            names@.map_values(|s: String| s@) == wanted,
            found.len() == i,
            files_delivered(hub, wanted, *fetch, ready, found@, hand),
    {
        let ghost before = hand;
        let name: &str = names[i].as_str();
        assert(fetch_is_due(config@, *connect, *fetch, start, hub, name@, before));
        let (delivered, now) = fetch(&hub, name, hand);
        assert(fetched(hub, wanted[i as int], *fetch, before, delivered, now));
        let path: PathBuf = match delivered {
            Ok(path) => path,
            Err(cause) => {
                let mut message: String = crate::text::join("hf-hub download of ", name);
                message.append(" failed: ");
                message.append(cause.as_str());
                let error: AsrError = AsrError::Backend(message);
                return (Err(error), now);
            },
        };
        let ghost so_far = found@;
        found.push(path);
        hand = now;
        assert(found@.drop_last() == so_far);
        assert(fetched(hub, wanted[found@.len() - 1], *fetch, before, Ok(found@.last()), now));
    }
    (Ok(assemble(config, found)), hand)
}

/// Where the model files are looked for: in the configured directory, else
/// in the one the environment names, else on the hub.
pub open spec fn model_files_gave<H, W, P, C, D>(
    config: ConfigView,
    env_dir: Option<PathBuf>,
    on_disk: P,
    connect: C,
    fetch: D,
    start: W,
    result: Result<ModelFiles, AsrError>,
    now: W,
) -> bool where
    P: Fn(&PathBuf) -> bool,
    C: Fn(&str, W) -> (Result<H, String>, W),
    D: Fn(&H, &str, W) -> (Result<PathBuf, String>, W),
 {
    match (config.model_dir, env_dir) {
        (Some(dir), _) => directory_gave(dir, config, on_disk, result) && now == start,
        (None, Some(dir)) => directory_gave(dir, config, on_disk, result) && now == start,
        (None, None) => hub_gave::<H, W, C, D>(config, connect, fetch, start, result, now),
    }
}

/// What may be asked on the way: of the directory that decides, if there is
/// one, and of the hub only where there is none.
pub open spec fn search_is_admitted<H, W, P, C, D>(
    config: ConfigView,
    env_dir: Option<PathBuf>,
    on_disk: P,
    connect: C,
    fetch: D,
    start: W,
) -> bool where
    P: Fn(&PathBuf) -> bool,
    C: Fn(&str, W) -> (Result<H, String>, W),
    D: Fn(&H, &str, W) -> (Result<PathBuf, String>, W),
 {
    match (config.model_dir, env_dir) {
        (Some(dir), _) => lookup_is_admitted(dir, config, on_disk),
        (None, Some(dir)) => lookup_is_admitted(dir, config, on_disk),
        (None, None) => hub_is_admitted::<H, W, C, D>(config, connect, fetch, start),
    }
}

/// Find the model files. `env_dir` is the directory that
/// `WAVEKAT_ASR_MODEL_DIR` names, if it is set.
pub fn resolve_model_files<H, W, P, C, D>(
    config: &SherpaOnnxConfig,
    env_dir: &Option<PathBuf>,
    on_disk: &P,
    connect: &C,
    fetch: &D,
    outside: W,
) -> (outcome: (Result<ModelFiles, AsrError>, W))
    where
        P: Fn(&PathBuf) -> bool,
        C: Fn(&str, W) -> (Result<H, String>, W),
        D: Fn(&H, &str, W) -> (Result<PathBuf, String>, W),
    requires
        search_is_admitted::<H, W, P, C, D>(
            config@,
            *env_dir,
            *on_disk,
            *connect,
            *fetch,
            outside,
        ),
    ensures
        model_files_gave::<H, W, P, C, D>(
            config@,
            *env_dir,
            *on_disk,
            *connect,
            *fetch,
            outside,
            outcome.0,
            outcome.1,
        ),
{
    if let Some(dir) = &config.model_dir {
        return (load_from_dir(dir, config, on_disk), outside);
    }
    if let Some(dir) = env_dir {
        return (load_from_dir(dir, config, on_disk), outside);
    }
    download_from_hf(config, connect, fetch, outside)
}

/// The files of a preset in a directory, each in its place.
pub open spec fn preset_files_in(dir: PathBuf, preset: PresetView) -> ModelFiles {
    ModelFiles {
        encoder: crate::outside::path_joined(dir, preset.encoder),
        decoder: crate::outside::path_joined(dir, preset.decoder),
        joiner: match (preset.family, preset.joiner) {
            (ModelFamily::Transducer, Some(joiner)) => Some(
                crate::outside::path_joined(dir, joiner),
            ),
            _ => None,
        },
        tokens: crate::outside::path_joined(dir, preset.tokens),
    }
}

impl ModelFiles {
    /// The paths in the order in which a preset lists its files: the encoder,
    /// the decoder, the joiner if there is one, the tokens.
    pub open spec fn in_order(self) -> Seq<PathBuf> {
        match self.joiner {
            Some(joiner) => seq![self.encoder, self.decoder, joiner, self.tokens],
            None => seq![self.encoder, self.decoder, self.tokens],
        }
    }
}

/// A directory that lacks none of a preset's files is directly loadable with
/// the preset's configuration: the lookup finds the encoder, the decoder, the
/// joiner of a transducer and the tokens, each under its own name there.
pub proof fn law_complete_directory_is_loadable<P>(
    preset: PresetView,
    dir: PathBuf,
    on_disk: P,
    result: Result<ModelFiles, AsrError>,
) where P: Fn(&PathBuf) -> bool
    requires
        preset.family == ModelFamily::Transducer ==> preset.joiner is Some,
        forall|i: int|
            0 <= i < preset.files().len() ==> !call_ensures(
                on_disk,
                (&crate::outside::path_joined(dir, #[trigger] preset.files()[i]),),
                false,
            ),
        directory_gave(
            dir,
            (ConfigView { model_dir: Some(dir), ..ConfigView::of_preset(preset) }),
            on_disk,
            result,
        ),
    ensures
        result == Ok::<ModelFiles, AsrError>(preset_files_in(dir, preset)),
        preset.is_consistent() ==> preset_files_in(dir, preset).in_order() == paths_in(
            dir,
            preset.files(),
        ),
{
    let files = preset.files();
    assert(files[0] == preset.encoder && files[1] == preset.decoder);
    assert(files[files.len() - 1] == preset.tokens);
    assert(preset.joiner is Some ==> files[2] == preset.joiner->0);
}

/// After a successful download of a preset's files the directory is directly
/// loadable with the preset's configuration: the lookup finds each file where
/// the download put it. It holds where the directory keeps what is copied
/// into it, and is looked at as the download left it.
pub proof fn law_downloaded_preset_is_loadable<H, W, M, C, D, Y, P>(
    preset: PresetView,
    repo_id: &str,
    files: Seq<&str>,
    dir: PathBuf,
    make_dir: M,
    connect: C,
    fetch: D,
    copy: Y,
    start: W,
    now: W,
    there: spec_fn(W, PathBuf) -> bool,
    on_disk: P,
    result: Result<ModelFiles, AsrError>,
) where
    M: Fn(&PathBuf, W) -> (Result<(), String>, W),
    C: Fn(&str, W) -> (Result<H, String>, W),
    D: Fn(&H, &str, CallbackProgress, W) -> (Result<PathBuf, String>, W),
    Y: Fn(&PathBuf, &PathBuf, W) -> (Result<(), String>, W),
    P: Fn(&PathBuf) -> bool,

    requires
        preset.family == ModelFamily::Transducer ==> preset.joiner is Some,
        crate::download::cache::texts(files) == preset.files(),
        crate::download::batch::download_came_to::<H, W, M, C, D, Y>(
            repo_id,
            files,
            dir,
            make_dir,
            connect,
            fetch,
            copy,
            start,
            Ok::<(), AsrError>(()),
            now,
        ),
        crate::download::laws::directory_fills_up::<H, W, D, Y>(dir, files, fetch, copy, there),
        forall|path: PathBuf, answer: bool| #[trigger]
            call_ensures(on_disk, (&path,), answer) ==> answer == there(now, path),
        directory_gave(
            dir,
            (ConfigView { model_dir: Some(dir), ..ConfigView::of_preset(preset) }),
            on_disk,
            result,
        ),
    ensures
        result == Ok::<ModelFiles, AsrError>(preset_files_in(dir, preset)),
        preset.is_consistent() ==> preset_files_in(dir, preset).in_order() == paths_in(
            dir,
            preset.files(),
        ),
{
    crate::download::laws::law_downloaded_files_are_there::<H, W, M, C, D, Y>(
        repo_id,
        files,
        dir,
        make_dir,
        connect,
        fetch,
        copy,
        start,
        now,
        there,
    );
    assert forall|i: int| 0 <= i < preset.files().len() implies !call_ensures(
        on_disk,
        (&crate::outside::path_joined(dir, #[trigger] preset.files()[i]),),
        false,
    ) by {
        assert(crate::download::cache::texts(files)[i] == files[i]@);
        assert(there(now, crate::download::laws::destination(dir, files, i)));
    }
    law_complete_directory_is_loadable(preset, dir, on_disk, result);
}

/// Wherever the model files come from, they have a joiner exactly where the
/// family is a transducer.
pub proof fn law_files_suit_the_family<H, W, P, C, D>(
    config: ConfigView,
    env_dir: Option<PathBuf>,
    on_disk: P,
    connect: C,
    fetch: D,
    start: W,
    files: ModelFiles,
    now: W,
) where
    P: Fn(&PathBuf) -> bool,
    C: Fn(&str, W) -> (Result<H, String>, W),
    D: Fn(&H, &str, W) -> (Result<PathBuf, String>, W),

    requires
        model_files_gave::<H, W, P, C, D>(
            config,
            env_dir,
            on_disk,
            connect,
            fetch,
            start,
            Ok::<ModelFiles, AsrError>(files),
            now,
        ),
    ensures
        files.joiner is Some <==> config.family == ModelFamily::Transducer,
{
}

} // verus!
