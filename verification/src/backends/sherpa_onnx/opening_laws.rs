//! What holds of opening a session, whatever the disk, the hub and the native
//! library answer: which files end up in which role, and what the recognizer
//! is created with.

use std::path::PathBuf;
use vstd::prelude::*;

use super::config::{
    ConfigView, DecodingMethod, RecognizerConfig, RecognizerConfigView, SherpaOnnxConfig,
};
use super::files::ModelFiles;
use super::preset::{ModelFamily, ModelPreset, PresetView};
use super::setup::Opened;
use crate::error::ErrorView;
use crate::AsrError;

verus! {

/// The paths a recognizer of this family is given, in the order in which
/// their texts are taken.
pub open spec fn needed_paths(family: ModelFamily, files: ModelFiles) -> Seq<PathBuf> {
    match family {
        ModelFamily::Transducer => seq![
            files.encoder,
            files.decoder,
            files.joiner->0,
            files.tokens,
        ],
        ModelFamily::Paraformer => seq![files.encoder, files.decoder, files.tokens],
    }
}

/// A recognizer configuration has the text of the tokens path as its tokens,
/// whatever the family; it has the threads, the decoding method, the endpoint
/// switch and the rule 2 silence of the session's configuration; and of the
/// model slots exactly those of the family are filled, each with the text of
/// the path of its own role.
pub proof fn law_recognizer_gets_what_is_configured(config: ConfigView, files: ModelFiles)
    ensures
        config.recognizer_config(files) matches Ok(made) ==> {
            &&& made.tokens is Some
            &&& made.tokens == crate::outside::path_text(files.tokens)
            &&& made.num_threads >= 1
            &&& config.num_threads >= 1 ==> made.num_threads == config.num_threads
            &&& config.num_threads < 1 ==> made.num_threads == 1
            &&& made.provider == Some("cpu"@)
            &&& config.decoding_method == DecodingMethod::Greedy ==> made.decoding_method == Some(
                "greedy_search"@,
            )
            &&& config.decoding_method == DecodingMethod::ModifiedBeamSearch
                ==> made.decoding_method == Some("modified_beam_search"@)
            &&& made.enable_endpoint == config.enable_endpoint
            &&& made.rule1_min_trailing_silence.bits == 0x4019_999a
            &&& made.rule2_min_trailing_silence == config.rule2_min_trailing_silence
            &&& made.rule3_min_utterance_length.bits == 0x4396_0000
        },
        config.family == ModelFamily::Transducer ==> (config.recognizer_config(
            files,
        ) matches Ok(made) ==> {
            &&& files.joiner is Some
            &&& made.transducer_encoder is Some
            &&& made.transducer_encoder == crate::outside::path_text(files.encoder)
            &&& made.transducer_decoder is Some
            &&& made.transducer_decoder == crate::outside::path_text(files.decoder)
            &&& made.transducer_joiner is Some
            &&& made.transducer_joiner == crate::outside::path_text(files.joiner->0)
            &&& made.paraformer_encoder is None
            &&& made.paraformer_decoder is None
        }),
        config.family == ModelFamily::Paraformer ==> (config.recognizer_config(
            files,
        ) matches Ok(made) ==> {
            &&& made.paraformer_encoder is Some
            &&& made.paraformer_encoder == crate::outside::path_text(files.encoder)
            &&& made.paraformer_decoder is Some
            &&& made.paraformer_decoder == crate::outside::path_text(files.decoder)
            &&& made.transducer_encoder is None
            &&& made.transducer_decoder is None
            &&& made.transducer_joiner is None
        }),
{
}

/// A recognizer configuration is made exactly where a transducer has a joiner
/// and every path that is needed has a text; the first one that has none is
/// the error.
pub proof fn law_recognizer_configuration_needs_texts(config: ConfigView, files: ModelFiles)
    ensures
        ({
            let made = config.recognizer_config(files);
            let needed = needed_paths(config.family, files);
            let joined = config.family == ModelFamily::Transducer ==> files.joiner is Some;
            &&& !joined ==> made == Err::<RecognizerConfigView, ErrorView>(
                ErrorView::Backend("transducer model family requires a joiner file"@),
            )
            &&& joined && (forall|i: int|
                0 <= i < needed.len() ==> crate::outside::path_text(#[trigger] needed[i]) is Some)
                ==> made is Ok
            &&& forall|i: int|
                {
                    &&& joined
                    &&& 0 <= i < needed.len()
                    &&& crate::outside::path_text(#[trigger] needed[i]) is None
                    &&& forall|j: int|
                        0 <= j < i ==> crate::outside::path_text(#[trigger] needed[j]) is Some
                } ==> made == Err::<RecognizerConfigView, ErrorView>(
                    ErrorView::Backend(
                        "non-UTF-8 path: "@ + crate::outside::path_shown(needed[i]),
                    ),
                )
        }),
{
    let needed = needed_paths(config.family, files);
    assert(needed[0] == files.encoder && needed[1] == files.decoder);
    assert(needed[needed.len() - 1] == files.tokens);
    if config.family == ModelFamily::Transducer {
        assert(needed[2] == files.joiner->0);
    }
}

/// The text of a path is the path's own, and a path without one is an error
/// that shows it.
pub proof fn law_paths_keep_their_text(path: PathBuf)
    ensures
        crate::outside::path_text(path) matches Some(text) ==> super::files::utf8_of(path) == Ok::<
            Seq<char>,
            ErrorView,
        >(text),
        crate::outside::path_text(path) is None ==> super::files::utf8_of(path) == Err::<
            Seq<char>,
            ErrorView,
        >(ErrorView::Backend("non-UTF-8 path: "@ + crate::outside::path_shown(path))),
{
}

/// A preset's configuration names the preset's own repo, family and files,
/// looks in no directory of its own, and has two threads, greedy search, and
/// endpoints after 0.8 s of silence.
pub proof fn law_preset_is_configured(preset: PresetView)
    ensures
        ({
            let config = ConfigView::of_preset(preset);
            &&& config.model_dir is None
            &&& config.model_id == preset.model_id
            &&& config.family == preset.family
            &&& config.encoder_filename == preset.encoder
            &&& config.decoder_filename == preset.decoder
            &&& config.joiner_filename == preset.joiner
            &&& config.tokens_filename == preset.tokens
            &&& config.num_threads == 2
            &&& config.decoding_method == DecodingMethod::Greedy
            &&& config.enable_endpoint
            &&& config.rule2_min_trailing_silence.bits == 0x3f4c_cccd
        }),
{
}

/// The name a decoding method goes by in the recognizer's settings.
pub proof fn law_methods_have_their_names()
    ensures
        DecodingMethod::Greedy.name() == "greedy_search"@,
        DecodingMethod::ModifiedBeamSearch.name() == "modified_beam_search"@,
{
}

/// The files a configuration names, in the order in which they are asked
/// for: a transducer's joiner first.
pub open spec fn names_in_order(config: ConfigView) -> Seq<Seq<char>> {
    match config.family {
        ModelFamily::Transducer => seq![
            config.joiner_filename->0,
            config.encoder_filename,
            config.decoder_filename,
            config.tokens_filename,
        ],
        ModelFamily::Paraformer => seq![
            config.encoder_filename,
            config.decoder_filename,
            config.tokens_filename,
        ],
    }
}

/// Whether a configuration names every file of its family.
pub open spec fn names_its_files(config: ConfigView) -> bool {
    config.family == ModelFamily::Transducer ==> config.joiner_filename is Some
}

/// Whether each role holds the path that was got for its own name, the paths
/// being in the order of [`names_in_order`].
pub open spec fn roles_hold(family: ModelFamily, files: ModelFiles, paths: Seq<PathBuf>) -> bool {
    match family {
        ModelFamily::Transducer => {
            &&& paths.len() == 4
            &&& files.joiner == Some(paths[0])
            &&& files.encoder == paths[1]
            &&& files.decoder == paths[2]
            &&& files.tokens == paths[3]
        },
        ModelFamily::Paraformer => {
            &&& paths.len() == 3
            &&& files.joiner is None
            &&& files.encoder == paths[0]
            &&& files.decoder == paths[1]
            &&& files.tokens == paths[2]
        },
    }
}

/// The first `n` of these names were looked for below a directory, and each
/// was there.
pub open spec fn found_first<P>(
    dir: PathBuf,
    names: Seq<Seq<char>>,
    n: int,
    on_disk: P,
) -> bool where P: Fn(&PathBuf) -> bool {
    forall|i: int|
        0 <= i < n ==> call_ensures(
            on_disk,
            (&crate::outside::path_joined(dir, #[trigger] names[i]),),
            true,
        )
}

/// What a lookup in a directory does and gives: where the configuration names
/// every file, the files are looked for in order up to the first one that is
/// not there, whose path is the error; if all are there, each role holds the
/// path of its own name below the directory.
pub open spec fn directory_was_searched<P>(
    dir: PathBuf,
    config: ConfigView,
    on_disk: P,
    result: Result<ModelFiles, AsrError>,
) -> bool where P: Fn(&PathBuf) -> bool {
    let names = names_in_order(config);
    if !names_its_files(config) {
        result matches Err(error) && error@ == ErrorView::Backend(
            "transducer family requires joiner_filename"@,
        )
    } else {
        match result {
            Ok(files) => {
                &&& found_first(dir, names, names.len() as int, on_disk)
                &&& files.encoder == crate::outside::path_joined(dir, config.encoder_filename)
                &&& files.decoder == crate::outside::path_joined(dir, config.decoder_filename)
                &&& files.tokens == crate::outside::path_joined(dir, config.tokens_filename)
                &&& config.family == ModelFamily::Transducer ==> files.joiner == Some(
                    crate::outside::path_joined(dir, config.joiner_filename->0),
                )
                &&& config.family == ModelFamily::Paraformer ==> files.joiner is None
            },
            Err(error) => exists|n: int|
                {
                    &&& 0 <= n < names.len()
                    &&& found_first(dir, names, n, on_disk)
                    &&& call_ensures(
                        on_disk,
                        (&crate::outside::path_joined(dir, #[trigger] names[n]),),
                        false,
                    )
                    &&& error@ == ErrorView::Backend(
                        "model file not found: "@ + crate::outside::path_shown(
                            crate::outside::path_joined(dir, names[n]),
                        ),
                    )
                },
        }
    }
}

/// A lookup in a directory finds each file under its own name there.
pub proof fn law_directory_files_hold_their_roles<P>(
    dir: PathBuf,
    config: ConfigView,
    on_disk: P,
    result: Result<ModelFiles, AsrError>,
) where P: Fn(&PathBuf) -> bool
    requires
        super::files::directory_gave(dir, config, on_disk, result),
    ensures
        directory_was_searched(dir, config, on_disk, result),
{
    let names = names_in_order(config);
    if names_its_files(config) {
        let paths = super::files::paths_in(dir, config.wanted_files()->0);
        assert(config.wanted_files()->0 == names);
        assert(paths.len() == names.len());
        assert forall|i: int| 0 <= i < names.len() implies paths[i] == crate::outside::path_joined(
            dir,
            #[trigger] names[i],
        ) by {}
        if let Err(error) = result {
            let n = choose|n: int|
                {
                    &&& 0 <= n < paths.len()
                    &&& super::files::all_there(paths, n, on_disk)
                    &&& call_ensures(on_disk, (&#[trigger] paths[n],), false)
                    &&& error@ == super::files::file_missing(paths[n])
                };
            assert(paths[n] == crate::outside::path_joined(dir, names[n]));
        }
    }
}

/// A fetch of this name, from this hub, gave this.
pub open spec fn fetch_gave<H, W, D>(
    hub: H,
    name: Seq<char>,
    fetch: D,
    before: W,
    outcome: Result<PathBuf, String>,
    after: W,
) -> bool where D: Fn(&H, &str, W) -> (Result<PathBuf, String>, W) {
    exists|s: &str| s@ == name && #[trigger] call_ensures(fetch, (&hub, s, before), (outcome, after))
}

/// The hub delivers a file of this name at this path.
pub open spec fn hub_delivers<H, W, D>(fetch: D, name: Seq<char>, path: PathBuf) -> bool where
    D: Fn(&H, &str, W) -> (Result<PathBuf, String>, W),
 {
    exists|hub: H, before: W, after: W| #[trigger]
        fetch_gave(hub, name, fetch, before, Ok(path), after)
}

/// The first of these names were fetched from a hub, each once and in order,
/// with these hands in between, and delivered at these paths.
pub open spec fn fetches_ran<H, W, D>(
    hub: H,
    names: Seq<Seq<char>>,
    fetch: D,
    hands: Seq<W>,
    paths: Seq<PathBuf>,
) -> bool where D: Fn(&H, &str, W) -> (Result<PathBuf, String>, W) {
    &&& hands.len() == paths.len() + 1
    &&& paths.len() <= names.len()
    &&& forall|i: int|
        0 <= i < paths.len() ==> fetch_gave(
            hub,
            names[i],
            fetch,
            hands[i],
            Ok(#[trigger] paths[i]),
            hands[i + 1],
        )
}

/// What a lookup on an opened repo does and gives: where the configuration
/// names every file, the files are fetched in order up to the first one that
/// is not delivered, which is the error; if all are delivered, each role holds
/// the path that its own name was delivered at.
pub open spec fn repo_was_searched<H, W, D>(
    hub: H,
    config: ConfigView,
    fetch: D,
    ready: W,
    result: Result<ModelFiles, AsrError>,
    now: W,
) -> bool where D: Fn(&H, &str, W) -> (Result<PathBuf, String>, W) {
    let names = names_in_order(config);
    if !names_its_files(config) {
        now == ready && (result matches Err(error) && error@ == ErrorView::Backend(
            "transducer family requires joiner_filename"@,
        ))
    } else {
        exists|hands: Seq<W>, paths: Seq<PathBuf>|
            {
                &&& #[trigger] fetches_ran(hub, names, fetch, hands, paths)
                &&& hands[0] == ready
                &&& match result {
                    Ok(files) => roles_hold(config.family, files, paths) && hands.last() == now,
                    Err(error) => paths.len() < names.len() && exists|cause: String|
                        {
                            &&& #[trigger] fetch_gave(
                                hub,
                                names[paths.len() as int],
                                fetch,
                                hands.last(),
                                Err(cause),
                                now,
                            )
                            &&& error@ == ErrorView::Backend(
                                "hf-hub download of "@ + names[paths.len() as int] + " failed: "@
                                    + cause@,
                            )
                        },
                }
            }
    }
}

/// What a lookup on the hub does and gives: the configuration's repo is
/// opened, and a repo that cannot be opened is the error.
pub open spec fn hub_was_searched<H, W, C, D>(
    config: ConfigView,
    connect: C,
    fetch: D,
    start: W,
    result: Result<ModelFiles, AsrError>,
    now: W,
) -> bool where
    C: Fn(&str, W) -> (Result<H, String>, W),
    D: Fn(&H, &str, W) -> (Result<PathBuf, String>, W),
 {
    exists|repo: &str, answer: Result<H, String>, ready: W|
        {
            &&& repo@ == config.model_id
            &&& #[trigger] call_ensures(connect, (repo, start), (answer, ready))
            &&& match answer {
                Err(cause) => now == ready && (result matches Err(error) && error@
                    == ErrorView::Backend("hf-hub init failed: "@ + cause@)),
                Ok(hub) => repo_was_searched(hub, config, fetch, ready, result, now),
            }
        }
}

proof fn lemma_deliveries_ran<H, W, D>(
    hub: H,
    names: Seq<Seq<char>>,
    fetch: D,
    start: W,
    paths: Seq<PathBuf>,
    now: W,
) -> (hands: Seq<W>) where D: Fn(&H, &str, W) -> (Result<PathBuf, String>, W)
    requires
        super::files::files_delivered(hub, names, fetch, start, paths, now),
        paths.len() <= names.len(),
    ensures
        fetches_ran(hub, names, fetch, hands, paths),
        hands[0] == start,
        hands.last() == now,
    decreases paths.len(),
{
    if paths.len() == 0 {
        seq![start]
    } else {
        let before = choose|before: W|
            {
                &&& super::files::files_delivered(
                    hub,
                    names,
                    fetch,
                    start,
                    paths.drop_last(),
                    before,
                )
                &&& #[trigger] super::files::fetched(
                    hub,
                    names[paths.len() - 1],
                    fetch,
                    before,
                    Ok(paths.last()),
                    now,
                )
            };
        let earlier = lemma_deliveries_ran(
            hub,
            names,
            fetch,
            start,
            paths.drop_last(),
            before,
        );
        let hands = earlier.push(now);
        assert forall|i: int| 0 <= i < paths.len() implies fetch_gave(
            hub,
            names[i],
            fetch,
            hands[i],
            Ok(#[trigger] paths[i]),
            hands[i + 1],
        ) by {
            if i < paths.len() - 1 {
                assert(paths.drop_last()[i] == paths[i]);
            }
        }
        hands
    }
}

/// A lookup on the hub opens the configuration's repo, fetches the files it
/// names, each once and in order, and stops at the first failure.
pub proof fn law_hub_is_searched_in_order<H, W, C, D>(
    config: ConfigView,
    connect: C,
    fetch: D,
    start: W,
    result: Result<ModelFiles, AsrError>,
    now: W,
) where
    C: Fn(&str, W) -> (Result<H, String>, W),
    D: Fn(&H, &str, W) -> (Result<PathBuf, String>, W),

    requires
        super::files::hub_gave::<H, W, C, D>(config, connect, fetch, start, result, now),
    ensures
        hub_was_searched::<H, W, C, D>(config, connect, fetch, start, result, now),
{
    let (answer, ready) = choose|answer: Result<H, String>, ready: W|
        {
            &&& #[trigger] super::files::hub_answered(config, connect, start, answer, ready)
            &&& match answer {
                Err(cause) => result matches Err(error) && error@
                    == crate::download::batch::no_hub(cause@) && now == ready,
                Ok(hub) => super::files::repo_gave(hub, config, fetch, ready, result, now),
            }
        };
    let repo = choose|repo: &str|
        repo@ == config.model_id && #[trigger] call_ensures(
            connect,
            (repo, start),
            (answer, ready),
        );
    if let Ok(hub) = answer {
        let names = names_in_order(config);
        if names_its_files(config) {
            assert(config.wanted_files()->0 == names);
            match result {
                Ok(files) => {
                    let paths = choose|paths: Seq<PathBuf>|
                        {
                            &&& paths.len() == names.len()
                            &&& #[trigger] super::files::files_delivered(
                                hub,
                                names,
                                fetch,
                                ready,
                                paths,
                                now,
                            )
                            &&& files == config.assembled(paths)
                        };
                    let hands = lemma_deliveries_ran(hub, names, fetch, ready, paths, now);
                    assert(roles_hold(config.family, files, paths));
                },
                Err(error) => {
                    let (paths, before, cause) = choose|
                        paths: Seq<PathBuf>,
                        before: W,
                        cause: String,
                    |
                        {
                            &&& paths.len() < names.len()
                            &&& #[trigger] super::files::files_delivered(
                                hub,
                                names,
                                fetch,
                                ready,
                                paths,
                                before,
                            )
                            &&& #[trigger] super::files::fetched(
                                hub,
                                names[paths.len() as int],
                                fetch,
                                before,
                                Err(cause),
                                now,
                            )
                            &&& error@ == crate::download::batch::no_file(
                                names[paths.len() as int],
                                cause@,
                            )
                        };
                    let hands = lemma_deliveries_ran(hub, names, fetch, ready, paths, before);
                    assert(fetch_gave(
                        hub,
                        names[paths.len() as int],
                        fetch,
                        hands.last(),
                        Err(cause),
                        now,
                    ));
                },
            }
        }
        assert(repo_was_searched(hub, config, fetch, ready, result, now));
    }
}

/// Where the files come from the hub, each role holds what the hub delivered
/// for that role's own name.
pub proof fn law_hub_files_hold_their_roles<H, W, C, D>(
    config: ConfigView,
    connect: C,
    fetch: D,
    start: W,
    files: ModelFiles,
    now: W,
) where
    C: Fn(&str, W) -> (Result<H, String>, W),
    D: Fn(&H, &str, W) -> (Result<PathBuf, String>, W),

    requires
        super::files::hub_gave::<H, W, C, D>(
            config,
            connect,
            fetch,
            start,
            Ok::<ModelFiles, AsrError>(files),
            now,
        ),
    ensures
        hub_delivers::<H, W, D>(fetch, config.encoder_filename, files.encoder),
        hub_delivers::<H, W, D>(fetch, config.decoder_filename, files.decoder),
        hub_delivers::<H, W, D>(fetch, config.tokens_filename, files.tokens),
        config.family == ModelFamily::Transducer ==> {
            &&& config.joiner_filename is Some
            &&& files.joiner is Some
            &&& hub_delivers::<H, W, D>(fetch, config.joiner_filename->0, files.joiner->0)
        },
        config.family == ModelFamily::Paraformer ==> files.joiner is None,
{
    let result = Ok::<ModelFiles, AsrError>(files);
    law_hub_is_searched_in_order::<H, W, C, D>(config, connect, fetch, start, result, now);
    let (repo, answer, ready) = choose|repo: &str, answer: Result<H, String>, ready: W|
        {
            &&& repo@ == config.model_id
            &&& #[trigger] call_ensures(connect, (repo, start), (answer, ready))
            &&& match answer {
                Err(cause) => now == ready && (result matches Err(error) && error@
                    == ErrorView::Backend("hf-hub init failed: "@ + cause@)),
                Ok(hub) => repo_was_searched(hub, config, fetch, ready, result, now),
            }
        };
    let hub = answer->Ok_0;
    let names = names_in_order(config);
    let (hands, paths) = choose|hands: Seq<W>, paths: Seq<PathBuf>|
        {
            &&& #[trigger] fetches_ran(hub, names, fetch, hands, paths)
            &&& hands[0] == ready
            &&& roles_hold(config.family, files, paths) && hands.last() == now
        };
    assert(fetch_gave(hub, names[0], fetch, hands[0], Ok(paths[0]), hands[1]));
    assert(fetch_gave(hub, names[1], fetch, hands[1], Ok(paths[1]), hands[2]));
    assert(fetch_gave(hub, names[2], fetch, hands[2], Ok(paths[2]), hands[3]));
    if config.family == ModelFamily::Transducer {
        assert(fetch_gave(hub, names[3], fetch, hands[3], Ok(paths[3]), hands[4]));
    }
}

/// The configured directory decides alone where there is one, whatever the
/// environment names; else the one that the environment names does; the hub
/// is asked only where there is neither. Looking into a directory leaves the
/// hub alone.
pub proof fn law_search_goes_directory_environment_hub<H, W, P, C, D>(
    config: ConfigView,
    env_dir: Option<PathBuf>,
    on_disk: P,
    connect: C,
    fetch: D,
    start: W,
    result: Result<ModelFiles, AsrError>,
    now: W,
) where
    P: Fn(&PathBuf) -> bool,
    C: Fn(&str, W) -> (Result<H, String>, W),
    D: Fn(&H, &str, W) -> (Result<PathBuf, String>, W),

    requires
        super::files::model_files_gave::<H, W, P, C, D>(
            config,
            env_dir,
            on_disk,
            connect,
            fetch,
            start,
            result,
            now,
        ),
    ensures
        config.model_dir matches Some(dir) ==> now == start && directory_was_searched(
            dir,
            config,
            on_disk,
            result,
        ),
        config.model_dir is None ==> (env_dir matches Some(dir) ==> now == start
            && directory_was_searched(dir, config, on_disk, result)),
        config.model_dir is None && env_dir is None ==> hub_was_searched::<H, W, C, D>(
            config,
            connect,
            fetch,
            start,
            result,
            now,
        ),
{
    match (config.model_dir, env_dir) {
        (Some(dir), _) => {
            law_directory_files_hold_their_roles(dir, config, on_disk, result);
        },
        (None, Some(dir)) => {
            law_directory_files_hold_their_roles(dir, config, on_disk, result);
        },
        (None, None) => {
            law_hub_is_searched_in_order::<H, W, C, D>(config, connect, fetch, start, result, now);
        },
    }
}

/// Opening a session searches for its files; an error of the search is its
/// own error. For the files that were found one recognizer is created, with
/// the settings they lead to, unless they lead to an error. If it is there, it
/// comes with a session that is at its start and speaks to the receiver that
/// comes with it.
pub proof fn law_opening_creates_one_recognizer<H, R, W, P, C, D, K>(
    config: ConfigView,
    env_dir: Option<PathBuf>,
    on_disk: P,
    connect: C,
    fetch: D,
    create: K,
    start: W,
    result: Result<Opened<R>, AsrError>,
    now: W,
) where
    P: Fn(&PathBuf) -> bool,
    C: Fn(&str, W) -> (Result<H, String>, W),
    D: Fn(&H, &str, W) -> (Result<PathBuf, String>, W),
    K: Fn(&RecognizerConfig, W) -> (Option<R>, W),

    requires
        super::setup::opening_came_to::<H, R, W, P, C, D, K>(
            config,
            env_dir,
            on_disk,
            connect,
            fetch,
            create,
            start,
            result,
            now,
        ),
    ensures
        exists|found: Result<ModelFiles, AsrError>, searched: W|
            {
                &&& #[trigger] super::files::model_files_gave::<H, W, P, C, D>(
                    config,
                    env_dir,
                    on_disk,
                    connect,
                    fetch,
                    start,
                    found,
                    searched,
                )
                &&& found matches Err(error) ==> result == Err::<Opened<R>, AsrError>(error) && now
                    == searched
                &&& found matches Ok(files) ==> (config.recognizer_config(files) matches Err(why)
                    ==> now == searched && (result matches Err(error) && error@ == why))
                &&& found matches Ok(files) ==> (config.recognizer_config(files) matches Ok(settings)
                    ==> exists|asked: RecognizerConfig, made: Option<R>|
                    {
                        &&& asked@ == settings
                        &&& #[trigger] call_ensures(create, (&asked, searched), (made, now))
                        &&& made is None ==> (result matches Err(error) && error@
                            == ErrorView::Backend("OnlineRecognizer::create returned null"@))
                        &&& made matches Some(recognizer) ==> (result matches Ok(opened) && {
                            &&& opened.recognizer == recognizer
                            &&& opened.session@.channel == crate::outside::channel_read(
                                opened.events,
                            )
                            &&& opened.session@.sent.len() == 0
                            &&& opened.session@.last_emitted.len() == 0
                            &&& opened.session@.samples_pushed == 0
                            &&& opened.session@.last_utt_start_ms == 0
                            &&& !opened.session@.finished
                            &&& opened.session@.pending is None
                        })
                    })
            },
{
}

/// A closure that is ready for every call is ready for a session to be
/// opened with it: nothing else is asked of it.
pub proof fn law_ready_closures_open_a_session<H, R, W, P, C, D, K>(
    config: ConfigView,
    env_dir: Option<PathBuf>,
    on_disk: P,
    connect: C,
    fetch: D,
    create: K,
    start: W,
) where
    P: Fn(&PathBuf) -> bool,
    C: Fn(&str, W) -> (Result<H, String>, W),
    D: Fn(&H, &str, W) -> (Result<PathBuf, String>, W),
    K: Fn(&RecognizerConfig, W) -> (Option<R>, W),

    requires
        forall|path: PathBuf| #[trigger] call_requires(on_disk, (&path,)),
        forall|repo: &str, hand: W| #[trigger] call_requires(connect, (repo, hand)),
        forall|hub: H, name: &str, hand: W| #[trigger] call_requires(fetch, (&hub, name, hand)),
        forall|settings: &RecognizerConfig, hand: W| #[trigger]
            call_requires(create, (settings, hand)),
    ensures
        super::setup::opening_is_admitted::<H, R, W, P, C, D, K>(
            config,
            env_dir,
            on_disk,
            connect,
            fetch,
            create,
            start,
        ),
        forall|dir: PathBuf| #[trigger] super::files::lookup_is_admitted(dir, config, on_disk),
        super::files::hub_is_admitted::<H, W, C, D>(config, connect, fetch, start),
        super::files::search_is_admitted::<H, W, P, C, D>(
            config,
            env_dir,
            on_disk,
            connect,
            fetch,
            start,
        ),
{
}

/// A preset lists its encoder, its decoder, its joiner if it has one, and its
/// tokens, in that order.
pub proof fn law_presets_list_their_files(preset: PresetView)
    ensures
        preset.files().len() == if preset.joiner is Some {
            4nat
        } else {
            3nat
        },
        preset.files().first() == preset.encoder,
        preset.files()[1] == preset.decoder,
        preset.joiner matches Some(joiner) ==> preset.files()[2] == joiner,
        preset.files().last() == preset.tokens,
{
}

/// The bundled models: their repos, families, files and sizes.
pub proof fn law_bundled_presets()
    ensures
        ({
            let preset = PresetView::bilingual_zh_en();
            &&& preset.model_id
                == "csukuangfj/sherpa-onnx-streaming-zipformer-bilingual-zh-en-2023-02-20"@
            &&& preset.family == ModelFamily::Transducer
            &&& preset.encoder == "encoder-epoch-99-avg-1.int8.onnx"@
            &&& preset.decoder == "decoder-epoch-99-avg-1.onnx"@
            &&& preset.joiner == Some("joiner-epoch-99-avg-1.int8.onnx"@)
            &&& preset.tokens == "tokens.txt"@
            &&& preset.approx_size_bytes == 85 * 1_000_000
        }),
        ({
            let preset = PresetView::zipformer_en();
            &&& preset.model_id == "csukuangfj/sherpa-onnx-streaming-zipformer-en-2023-06-26"@
            &&& preset.family == ModelFamily::Transducer
            &&& preset.encoder == "encoder-epoch-99-avg-1-chunk-16-left-128.int8.onnx"@
            &&& preset.decoder == "decoder-epoch-99-avg-1-chunk-16-left-128.onnx"@
            &&& preset.joiner == Some("joiner-epoch-99-avg-1-chunk-16-left-128.int8.onnx"@)
            &&& preset.tokens == "tokens.txt"@
            &&& preset.approx_size_bytes == 110 * 1_000_000
        }),
        ({
            let preset = PresetView::paraformer_zh();
            &&& preset.model_id == "csukuangfj/sherpa-onnx-streaming-paraformer-zh"@
            &&& preset.family == ModelFamily::Paraformer
            &&& preset.encoder == "encoder.int8.onnx"@
            &&& preset.decoder == "decoder.int8.onnx"@
            &&& preset.joiner is None
            &&& preset.tokens == "tokens.txt"@
            &&& preset.approx_size_bytes == 75 * 1_000_000
        }),
        ({
            let preset = PresetView::paraformer_bilingual_zh_en();
            &&& preset.model_id == "csukuangfj/sherpa-onnx-streaming-paraformer-bilingual-zh-en"@
            &&& preset.family == ModelFamily::Paraformer
            &&& preset.encoder == "encoder.int8.onnx"@
            &&& preset.decoder == "decoder.int8.onnx"@
            &&& preset.joiner is None
            &&& preset.tokens == "tokens.txt"@
            &&& preset.approx_size_bytes == 70 * 1_000_000
        }),
{
}

/// The names of the English, Chinese and bilingual Paraformer presets stand
/// for those; every other name stands for the bilingual Zipformer, and is
/// known only if it is empty or one of that preset's own.
pub proof fn law_names_stand_for_presets(name: Seq<char>)
    ensures
        ({
            let bilingual = name == ""@ || name == "bilingual"@ || name == "bilingual-zh-en"@;
            let english = name == "en"@ || name == "english"@ || name == "zipformer-en"@;
            let chinese = name == "zh"@ || name == "chinese"@ || name == "paraformer-zh"@;
            let both = name == "paraformer-zh-en"@ || name == "paraformer-bilingual"@;
            let (preset, known) = super::preset::preset_named(name);
            &&& english ==> preset == PresetView::zipformer_en()
            &&& chinese ==> preset == PresetView::paraformer_zh()
            &&& both ==> preset == PresetView::paraformer_bilingual_zh_en()
            &&& !english && !chinese && !both ==> preset == PresetView::bilingual_zh_en()
            &&& known <==> bilingual || english || chinese || both
        }),
{
    reveal_strlit("");
    reveal_strlit("bilingual");
    reveal_strlit("bilingual-zh-en");
    reveal_strlit("en");
    reveal_strlit("english");
    reveal_strlit("zipformer-en");
    reveal_strlit("zh");
    reveal_strlit("chinese");
    reveal_strlit("paraformer-zh");
    reveal_strlit("paraformer-zh-en");
    reveal_strlit("paraformer-bilingual");
    assert("en"@[0] == 'e' && "zh"@[0] == 'z');
    assert("english"@[0] == 'e' && "chinese"@[0] == 'c');
    assert(""@.len() == 0 && "bilingual"@.len() == 9 && "bilingual-zh-en"@.len() == 15);
    assert("en"@.len() == 2 && "english"@.len() == 7 && "zipformer-en"@.len() == 12);
    assert("zh"@.len() == 2 && "chinese"@.len() == 7 && "paraformer-zh"@.len() == 13);
    assert("paraformer-zh-en"@.len() == 16 && "paraformer-bilingual"@.len() == 20);
}

/// A configuration says what its fields hold.
pub proof fn law_configurations_say_what_they_hold(config: SherpaOnnxConfig)
    ensures
        config@.model_dir == config.model_dir,
        config@.model_id == config.model_id@,
        config@.family == config.family,
        config@.encoder_filename == config.encoder_filename@,
        config@.decoder_filename == config.decoder_filename@,
        config.joiner_filename matches Some(joiner) ==> config@.joiner_filename == Some(joiner@),
        config.joiner_filename is None ==> config@.joiner_filename is None,
        config@.tokens_filename == config.tokens_filename@,
        config@.num_threads == config.num_threads,
        config@.decoding_method == config.decoding_method,
        config@.enable_endpoint == config.enable_endpoint,
        config@.rule2_min_trailing_silence == config.rule2_min_trailing_silence,
{
}

/// Whether an optional text is said as it is.
pub open spec fn said(said: Option<Seq<char>>, held: Option<String>) -> bool {
    match held {
        Some(text) => said == Some(text@),
        None => said is None,
    }
}

/// A recognizer's settings say what their fields hold, slot by slot.
pub proof fn law_settings_say_what_they_hold(settings: RecognizerConfig)
    ensures
        said(settings@.transducer_encoder, settings.transducer.encoder),
        said(settings@.transducer_decoder, settings.transducer.decoder),
        said(settings@.transducer_joiner, settings.transducer.joiner),
        said(settings@.paraformer_encoder, settings.paraformer.encoder),
        said(settings@.paraformer_decoder, settings.paraformer.decoder),
        said(settings@.tokens, settings.tokens),
        settings@.num_threads == settings.num_threads,
        said(settings@.provider, settings.provider),
        said(settings@.decoding_method, settings.decoding_method),
        settings@.enable_endpoint == settings.enable_endpoint,
        settings@.rule1_min_trailing_silence == settings.rule1_min_trailing_silence,
        settings@.rule2_min_trailing_silence == settings.rule2_min_trailing_silence,
        settings@.rule3_min_utterance_length == settings.rule3_min_utterance_length,
{
}

/// A preset says what its fields hold.
pub proof fn law_presets_say_what_they_hold(preset: ModelPreset)
    ensures
        preset@.model_id == preset.model_id@,
        preset@.family == preset.family,
        preset@.encoder == preset.encoder@,
        preset@.decoder == preset.decoder@,
        preset.joiner matches Some(joiner) ==> preset@.joiner == Some(joiner@),
        preset.joiner is None ==> preset@.joiner is None,
        preset@.tokens == preset.tokens@,
        preset@.approx_size_bytes == preset.approx_size_bytes,
{
}

} // verus!
