use std::path::PathBuf;
use std::sync::mpsc::Receiver;

use wavekat_asr::backends::sherpa_onnx::{
    bilingual_zh_en, download_from_hf, download_preset_with_progress, load_from_dir,
    paraformer_bilingual_zh_en, paraformer_zh, path_to_string, pick_preset, resolve_model_files,
    utf8_text, zipformer_en, DecodingMethod, ModelFamily, ModelFiles, Opened, RecognizerCall,
    RecognizerConfig, RecognizerReply, SherpaOnnxAsr, SherpaOnnxConfig,
};
use wavekat_asr::download::{CacheEnv, CallbackProgress, Snapshot};
use wavekat_asr::{AsrError, AudioFrame, Channel, TranscriptEvent};

fn path(text: &str) -> PathBuf {
    PathBuf::from(text)
}

/// The name of a file in a directory.
fn name_of(path: &PathBuf) -> String {
    path.file_name().unwrap().to_str().unwrap().to_string()
}

fn message<T>(result: Result<T, AsrError>) -> String {
    match result {
        Err(AsrError::Backend(message)) => message,
        Err(AsrError::InvalidFrame(message)) => message,
        Err(other) => panic!("unexpected error {other:?}"),
        Ok(_) => panic!("expected an error"),
    }
}

fn open(config: SherpaOnnxConfig) -> (SherpaOnnxAsr, Receiver<TranscriptEvent>) {
    let (result, ()) = SherpaOnnxAsr::with_config(
        config,
        Some(PathBuf::from("/models")),
        |_: &PathBuf| true,
        |_: &str, outside: ()| (Err::<u8, String>("offline".to_string()), outside),
        |_: &u8, _: &str, outside: ()| (Err("offline".to_string()), outside),
        |_: &RecognizerConfig, outside: ()| (Some(9u8), outside),
        (),
    );
    let opened: Opened<u8> = result.unwrap();
    assert_eq!(opened.recognizer, 9);
    (opened.session, opened.events)
}

/// Plays the recognizer for one exchange; returns the calls it was asked for.
fn exchange(
    asr: &mut SherpaOnnxAsr,
    first: RecognizerCall,
    decodes: usize,
    hypothesis: Option<&str>,
    endpoint: bool,
) -> Vec<RecognizerCall> {
    let mut calls = vec![first];
    let mut left = decodes;
    let mut next = Some(first);
    while let Some(call) = next {
        assert_eq!(asr.pending(), Some(call));
        let reply = match call {
            RecognizerCall::IsReady => {
                let ready = left > 0;
                if ready {
                    left -= 1;
                }
                RecognizerReply::Ready(ready)
            }
            RecognizerCall::GetResult => {
                RecognizerReply::Hypothesis(hypothesis.map(|text| text.to_string()))
            }
            RecognizerCall::IsEndpoint => RecognizerReply::Endpoint(endpoint),
            _ => RecognizerReply::Done,
        };
        next = asr.pump(reply);
        calls.extend(next);
    }
    calls
}

fn push(asr: &mut SherpaOnnxAsr, samples: usize, hypothesis: Option<&str>, endpoint: bool) {
    let block = vec![0.0f32; samples];
    let frame = AudioFrame::new(block.as_slice(), 16_000);
    let call = asr.push_audio(&frame, Channel::Local).unwrap().unwrap();
    assert_eq!(call, RecognizerCall::AcceptWaveform { sample_rate: 16_000 });
    exchange(asr, call, 2, hypothesis, endpoint);
}

fn spoken(rx: &Receiver<TranscriptEvent>) -> Vec<String> {
    rx.try_iter()
        .map(|event| match event {
            TranscriptEvent::Partial { channel: Channel::Local, ts_ms, text } => {
                format!("partial {ts_ms} {text}")
            }
            TranscriptEvent::Final { channel: Channel::Local, ts_ms, end_ms, text, confidence } => {
                assert_eq!(f32::from_bits(confidence.bits), 1.0);
                format!("final {ts_ms}-{end_ms} {text}")
            }
            TranscriptEvent::SpeechEnded { channel: Channel::Local, ts_ms } => {
                format!("ended {ts_ms}")
            }
            other => panic!("unexpected {other:?}"),
        })
        .collect()
}

#[test]
fn default_config_uses_bilingual_zipformer() {
    let cfg = SherpaOnnxConfig::default();
    assert_eq!(cfg.model_id, bilingual_zh_en().model_id);
    assert_eq!(cfg.family, ModelFamily::Transducer);
    assert_eq!(cfg.encoder_filename, bilingual_zh_en().encoder);
    assert_eq!(
        cfg.joiner_filename.as_deref(),
        Some(bilingual_zh_en().joiner.unwrap())
    );
    assert!(cfg.enable_endpoint);
}

#[test]
fn paraformer_preset_has_no_joiner() {
    let cfg = SherpaOnnxConfig::from_preset(paraformer_zh());
    assert_eq!(cfg.family, ModelFamily::Paraformer);
    assert!(cfg.joiner_filename.is_none());
}

#[test]
fn preset_files_transducer_includes_joiner() {
    let files = bilingual_zh_en().files();
    assert_eq!(files.len(), 4);
    assert_eq!(files[0], bilingual_zh_en().encoder);
    assert_eq!(files[1], bilingual_zh_en().decoder);
    assert_eq!(files[2], bilingual_zh_en().joiner.unwrap());
    assert_eq!(files[3], bilingual_zh_en().tokens);
}

#[test]
fn preset_files_paraformer_omits_joiner() {
    let files = paraformer_zh().files();
    assert_eq!(files.len(), 3);
    assert_eq!(files[0], paraformer_zh().encoder);
    assert_eq!(files[1], paraformer_zh().decoder);
    assert_eq!(files[2], paraformer_zh().tokens);
}

#[test]
fn every_bundled_preset_declares_a_plausible_size() {
    // Consumers render this as "Download (~N MB)" before kicking
    // off the fetch — a zero is misleading and a four-digit MB
    // number means someone pasted the wrong figure. Pin both
    // ends so a new preset can't ship without a size.
    for preset in [
        &bilingual_zh_en(),
        &zipformer_en(),
        &paraformer_zh(),
        &paraformer_bilingual_zh_en(),
    ] {
        let mb = preset.approx_size_bytes / 1_000_000;
        assert!(mb > 0, "{} reports 0 MB", preset.model_id);
        assert!(mb < 500, "{} reports implausible {mb} MB", preset.model_id);
    }
}

#[test]
fn load_from_dir_errors_on_missing_files() {
    let cfg = SherpaOnnxConfig::default();
    let tmp = PathBuf::from("/tmp").join("wavekat-asr-missing");
    let err = load_from_dir(&tmp, &cfg, &|_: &PathBuf| false).unwrap_err();
    match err {
        AsrError::Backend(msg) => assert!(msg.contains("model file not found")),
        other => panic!("expected Backend error, got {other:?}"),
    }
}

#[test]
fn bundled_presets_name_their_repos() {
    assert_eq!(
        bilingual_zh_en().model_id,
        "csukuangfj/sherpa-onnx-streaming-zipformer-bilingual-zh-en-2023-02-20"
    );
    assert_eq!(
        zipformer_en().model_id,
        "csukuangfj/sherpa-onnx-streaming-zipformer-en-2023-06-26"
    );
    assert_eq!(paraformer_zh().model_id, "csukuangfj/sherpa-onnx-streaming-paraformer-zh");
    assert_eq!(
        paraformer_bilingual_zh_en().model_id,
        "csukuangfj/sherpa-onnx-streaming-paraformer-bilingual-zh-en"
    );
    let sizes: Vec<u64> = [
        bilingual_zh_en(),
        zipformer_en(),
        paraformer_zh(),
        paraformer_bilingual_zh_en(),
    ]
    .iter()
    .map(|preset| preset.approx_size_bytes)
    .collect();
    assert_eq!(sizes, vec![85_000_000, 110_000_000, 75_000_000, 70_000_000]);
}

#[test]
fn presets_are_picked_by_name() {
    for (name, preset) in [
        ("", bilingual_zh_en()),
        ("bilingual", bilingual_zh_en()),
        ("bilingual-zh-en", bilingual_zh_en()),
        ("en", zipformer_en()),
        ("english", zipformer_en()),
        ("zipformer-en", zipformer_en()),
        ("zh", paraformer_zh()),
        ("chinese", paraformer_zh()),
        ("paraformer-zh", paraformer_zh()),
        ("paraformer-zh-en", paraformer_bilingual_zh_en()),
        ("paraformer-bilingual", paraformer_bilingual_zh_en()),
    ] {
        let (picked, note) = pick_preset(name);
        assert_eq!(picked.model_id, preset.model_id);
        assert!(note.is_none());
    }
    let (picked, note) = pick_preset("fr");
    assert_eq!(picked.model_id, bilingual_zh_en().model_id);
    assert_eq!(
        note.unwrap(),
        "unknown WAVEKAT_ASR_PRESET `fr`; falling back to `bilingual`"
    );
}

#[test]
fn default_config_values() {
    let cfg = SherpaOnnxConfig::default();
    assert!(cfg.model_dir.is_none());
    assert_eq!(cfg.num_threads, 2);
    assert_eq!(cfg.decoding_method, DecodingMethod::Greedy);
    assert_eq!(f32::from_bits(cfg.rule2_min_trailing_silence.bits), 0.8);
    assert_eq!(DecodingMethod::Greedy.as_str(), "greedy_search");
    assert_eq!(DecodingMethod::ModifiedBeamSearch.as_str(), "modified_beam_search");
}

#[test]
fn first_missing_file_is_named_joiner_first() {
    let cfg = SherpaOnnxConfig::default();
    let dir = PathBuf::from("/models");
    let result = load_from_dir(&dir, &cfg, &|_: &PathBuf| false);
    assert_eq!(
        message(result),
        "model file not found: /models/joiner-epoch-99-avg-1.int8.onnx"
    );
    let result = load_from_dir(&dir, &cfg, &|path: &PathBuf| {
        !name_of(path).starts_with("decoder")
    });
    assert_eq!(
        message(result),
        "model file not found: /models/decoder-epoch-99-avg-1.onnx"
    );
}

#[test]
fn files_of_a_directory_end_up_in_their_places() {
    let dir = PathBuf::from("/models");
    let found = |_: &PathBuf| true;
    let files = load_from_dir(&dir, &SherpaOnnxConfig::default(), &found).unwrap();
    assert_eq!(files.encoder, path("/models/encoder-epoch-99-avg-1.int8.onnx"));
    assert_eq!(files.decoder, path("/models/decoder-epoch-99-avg-1.onnx"));
    assert_eq!(files.joiner.unwrap(), path("/models/joiner-epoch-99-avg-1.int8.onnx"));
    assert_eq!(files.tokens, path("/models/tokens.txt"));

    let mut cfg = SherpaOnnxConfig::from_preset(paraformer_zh());
    cfg.joiner_filename = Some("ignored.onnx".to_string());
    let files = load_from_dir(&dir, &cfg, &found).unwrap();
    assert_eq!(files.encoder, path("/models/encoder.int8.onnx"));
    assert!(files.joiner.is_none());
}

#[test]
fn a_lookup_asks_in_order_and_stops_at_the_first_missing_file() {
    let asked = std::cell::RefCell::new(Vec::<String>::new());
    let result = load_from_dir(&path("/m"), &SherpaOnnxConfig::default(), &|path: &PathBuf| {
        asked.borrow_mut().push(name_of(path));
        !name_of(path).starts_with("encoder")
    });
    assert!(result.is_err());
    assert_eq!(
        asked.into_inner(),
        vec!["joiner-epoch-99-avg-1.int8.onnx", "encoder-epoch-99-avg-1.int8.onnx"]
    );
}

#[test]
fn a_transducer_must_name_its_joiner() {
    let mut cfg = SherpaOnnxConfig::default();
    cfg.joiner_filename = None;
    let result =
        load_from_dir(&PathBuf::from("/m"), &cfg, &|_: &PathBuf| panic!("must not be asked"));
    assert_eq!(message(result), "transducer family requires joiner_filename");

    let (result, opened) = download_from_hf(
        &cfg,
        &|repo: &str, _: String| (Ok::<u8, String>(1), repo.to_string()),
        &|_: &u8, _: &str, _: String| panic!("must not be asked"),
        String::new(),
    );
    assert_eq!(message(result), "transducer family requires joiner_filename");
    assert_eq!(opened, bilingual_zh_en().model_id);
}

#[test]
fn hub_failures_are_reported() {
    let cfg = SherpaOnnxConfig::default();
    let (result, ()) = download_from_hf(
        &cfg,
        &|_: &str, outside: ()| (Err::<u8, String>("no home".to_string()), outside),
        &|_: &u8, _: &str, _: ()| panic!("must not be asked"),
        (),
    );
    assert_eq!(message(result), "hf-hub init failed: no home");

    let (result, asked) = download_from_hf(
        &cfg,
        &|repo: &str, mut asked: Vec<String>| {
            asked.push(repo.to_string());
            (Ok(7u8), asked)
        },
        &|hub: &u8, name: &str, mut asked: Vec<String>| {
            assert_eq!(*hub, 7);
            asked.push(name.to_string());
            if name.starts_with("encoder") {
                (Err("404".to_string()), asked)
            } else {
                (Ok(path(name)), asked)
            }
        },
        Vec::new(),
    );
    assert_eq!(
        message(result),
        "hf-hub download of encoder-epoch-99-avg-1.int8.onnx failed: 404"
    );
    assert_eq!(
        asked,
        vec![
            bilingual_zh_en().model_id,
            "joiner-epoch-99-avg-1.int8.onnx",
            "encoder-epoch-99-avg-1.int8.onnx",
        ]
    );
}

#[test]
fn the_hub_is_asked_for_each_file_once() {
    let (result, asked) = download_from_hf(
        &SherpaOnnxConfig::from_preset(paraformer_zh()),
        &|_: &str, asked: Vec<String>| (Ok(7u8), asked),
        &|_: &u8, name: &str, mut asked: Vec<String>| {
            asked.push(name.to_string());
            (Ok(path(&format!("/cache/{}/{name}", asked.len()))), asked)
        },
        Vec::new(),
    );
    let files = result.unwrap();
    assert_eq!(files.encoder, path("/cache/1/encoder.int8.onnx"));
    assert_eq!(files.decoder, path("/cache/2/decoder.int8.onnx"));
    assert_eq!(files.tokens, path("/cache/3/tokens.txt"));
    assert!(files.joiner.is_none());
    assert_eq!(asked.len(), 3);
}

#[test]
fn resolution_order_is_model_dir_then_env_then_hub() {
    let resolve = |model_dir: Option<&str>, env_dir: Option<&str>| -> (ModelFiles, usize) {
        let mut cfg = SherpaOnnxConfig::default();
        cfg.model_dir = model_dir.map(PathBuf::from);
        let (result, asked) = resolve_model_files(
            &cfg,
            &env_dir.map(PathBuf::from),
            &|_: &PathBuf| true,
            &|_: &str, asked: usize| (Ok::<u8, String>(1), asked + 1),
            &|_: &u8, name: &str, asked: usize| (Ok(path(&format!("/hub/{name}"))), asked + 1),
            0,
        );
        (result.unwrap(), asked)
    };
    let (files, asked) = resolve(Some("/cfg"), Some("/env"));
    assert_eq!((files.tokens, asked), (path("/cfg/tokens.txt"), 0));
    let (files, asked) = resolve(None, Some("/env"));
    assert_eq!((files.tokens, asked), (path("/env/tokens.txt"), 0));
    let (files, asked) = resolve(None, None);
    assert_eq!((files.tokens, asked), (path("/hub/tokens.txt"), 5));
}

#[test]
fn recognizer_config_fills_the_slot_of_the_family() {
    let mut cfg = SherpaOnnxConfig::default();
    cfg.num_threads = 0;
    cfg.decoding_method = DecodingMethod::ModifiedBeamSearch;
    let files = ModelFiles {
        encoder: path("e"),
        decoder: path("d"),
        joiner: Some(path("j")),
        tokens: path("t"),
    };
    let settings = cfg.recognizer_config(&files).unwrap();
    assert_eq!(settings.transducer.encoder.as_deref(), Some("e"));
    assert_eq!(settings.transducer.decoder.as_deref(), Some("d"));
    assert_eq!(settings.transducer.joiner.as_deref(), Some("j"));
    assert!(settings.paraformer.encoder.is_none());
    assert!(settings.paraformer.decoder.is_none());
    assert_eq!(settings.tokens.as_deref(), Some("t"));
    assert_eq!(settings.num_threads, 1);
    assert_eq!(settings.provider.as_deref(), Some("cpu"));
    assert_eq!(settings.decoding_method.as_deref(), Some("modified_beam_search"));
    assert!(settings.enable_endpoint);
    assert_eq!(f32::from_bits(settings.rule1_min_trailing_silence.bits), 2.4);
    assert_eq!(f32::from_bits(settings.rule2_min_trailing_silence.bits), 0.8);
    assert_eq!(f32::from_bits(settings.rule3_min_utterance_length.bits), 300.0);

    let cfg = SherpaOnnxConfig::from_preset(paraformer_zh());
    let settings = cfg.recognizer_config(&files).unwrap();
    assert!(settings.transducer.encoder.is_none());
    assert!(settings.transducer.joiner.is_none());
    assert_eq!(settings.paraformer.encoder.as_deref(), Some("e"));
    assert_eq!(settings.paraformer.decoder.as_deref(), Some("d"));
    assert_eq!(settings.num_threads, 2);
}

#[test]
fn recognizer_config_errors() {
    let cfg = SherpaOnnxConfig::default();
    let files =
        ModelFiles { encoder: path("e"), decoder: path("d"), joiner: None, tokens: path("t") };
    assert_eq!(
        message(cfg.recognizer_config(&files)),
        "transducer model family requires a joiner file"
    );
}

#[test]
fn paths_have_a_text_or_are_an_error() {
    assert_eq!(path_to_string(&path("/m/a.onnx")).unwrap(), "/m/a.onnx");
    assert_eq!(utf8_text(Some("/m/a"), "shown").unwrap(), "/m/a");
    assert_eq!(message(utf8_text(None, "/m/\u{fffd}")), "non-UTF-8 path: /m/\u{fffd}");
}

#[test]
fn a_recognizer_that_cannot_be_created_is_an_error() {
    let (result, created): (Result<Opened<u8>, AsrError>, usize) = SherpaOnnxAsr::new(
        Some(PathBuf::from("/models")),
        |_: &PathBuf| true,
        |_: &str, _: usize| -> (Result<u8, String>, usize) { panic!("must not be asked") },
        |_: &u8, _: &str, _: usize| panic!("must not be asked"),
        |settings: &RecognizerConfig, created: usize| {
            assert_eq!(settings.tokens.as_deref(), Some("/models/tokens.txt"));
            (None, created + 1)
        },
        0,
    );
    assert_eq!(message(result), "OnlineRecognizer::create returned null");
    assert_eq!(created, 1);

    let (result, ()): (Result<Opened<u8>, AsrError>, ()) = SherpaOnnxAsr::with_preset(
        paraformer_zh(),
        None,
        |_: &PathBuf| panic!("must not be asked"),
        |_: &str, outside: ()| (Err::<u8, String>("offline".to_string()), outside),
        |_: &u8, _: &str, _: ()| panic!("must not be asked"),
        |_: &RecognizerConfig, _: ()| panic!("must not be asked"),
        (),
    );
    assert_eq!(message(result), "hf-hub init failed: offline");
}

#[test]
fn a_downloaded_preset_is_loadable() {
    for preset in [bilingual_zh_en(), paraformer_zh()] {
        let (result, stored) = download_preset_with_progress(
            preset.clone(),
            &path("/models"),
            |_: &PathBuf, stored: Vec<PathBuf>| (Ok(()), stored),
            |_: &str, stored: Vec<PathBuf>| (Ok::<u8, String>(0), stored),
            |_: &u8, name: &str, _: CallbackProgress, stored: Vec<PathBuf>| {
                (Ok(path("/cache").join(name)), stored)
            },
            |source: &PathBuf, dest: &PathBuf, mut stored: Vec<PathBuf>| {
                assert_eq!(name_of(source), name_of(dest));
                stored.push(dest.clone());
                (Ok(()), stored)
            },
            Vec::new(),
        );
        assert!(result.is_ok());
        let expected: Vec<PathBuf> =
            preset.files().iter().map(|name| path("/models").join(name)).collect();
        assert_eq!(stored, expected);
        let mut cfg = SherpaOnnxConfig::from_preset(preset.clone());
        cfg.model_dir = Some(path("/models"));
        let files =
            load_from_dir(&path("/models"), &cfg, &|path: &PathBuf| stored.contains(path)).unwrap();
        assert_eq!(files.encoder, expected[0]);
        assert_eq!(files.decoder, expected[1]);
        assert_eq!(files.joiner.is_some(), preset.joiner.is_some());
        assert_eq!(files.tokens, expected[expected.len() - 1]);
    }
}

#[test]
fn presets_are_looked_up_in_the_cache() {
    let preset = paraformer_zh();
    let env = || CacheEnv {
        hf_home: Some(PathBuf::from("/hf")),
        home: None,
        user_profile: None,
    };
    let complete = |asked: &PathBuf, files: &[&str]| {
        assert_eq!(
            *asked,
            path("/hf/hub/models--csukuangfj--sherpa-onnx-streaming-paraformer-zh/snapshots")
        );
        let present = files.iter().map(|name| name.to_string()).collect();
        Some(vec![Snapshot { is_dir: true, present }])
    };
    assert!(preset.is_cached(env(), complete));
    assert!(!preset.is_cached(env(), |_: &PathBuf, _: &[&str]| None));
}

#[test]
fn one_exchange_makes_the_calls_in_order() {
    let (mut asr, _rx) = open(SherpaOnnxConfig::default());
    let call = asr.accept_samples(Channel::Local, 16_000, 160).unwrap();
    let calls = exchange(&mut asr, call, 1, Some("hi"), true);
    assert_eq!(
        calls,
        vec![
            RecognizerCall::AcceptWaveform { sample_rate: 16_000 },
            RecognizerCall::IsReady,
            RecognizerCall::Decode,
            RecognizerCall::IsReady,
            RecognizerCall::GetResult,
            RecognizerCall::IsEndpoint,
            RecognizerCall::Reset,
        ]
    );
}

#[test]
fn partials_are_deduplicated_and_promoted_at_an_endpoint() {
    let (mut asr, rx) = open(SherpaOnnxConfig::default());
    push(&mut asr, 1_600, Some("hello"), false);
    push(&mut asr, 1_600, Some("hello"), false);
    push(&mut asr, 1_600, Some(""), false);
    push(&mut asr, 1_600, None, false);
    push(&mut asr, 1_600, Some("hello there"), true);
    push(&mut asr, 1_600, None, true);
    push(&mut asr, 1_600, Some("hello there"), true);
    assert_eq!(
        spoken(&rx),
        vec![
            "partial 100 hello",
            "partial 500 hello there",
            "final 0-500 hello there",
            "partial 700 hello there",
            "final 600-700 hello there",
        ]
    );
    assert_eq!(asr.current_ms(), 700);
}

#[test]
fn finish_flushes_what_no_endpoint_promoted() {
    let (mut asr, rx) = open(SherpaOnnxConfig::default());
    push(&mut asr, 1_600, Some("hel"), false);
    let call = asr.finish().unwrap();
    assert_eq!(call, RecognizerCall::InputFinished);
    exchange(&mut asr, call, 0, Some("hello"), false);
    assert_eq!(
        spoken(&rx),
        vec!["partial 100 hel", "partial 100 hello", "final 0-100 hello", "ended 100"]
    );

    assert!(matches!(asr.finish(), Err(AsrError::AlreadyFinished)));
    assert!(matches!(
        asr.accept_samples(Channel::Local, 16_000, 1),
        Err(AsrError::AlreadyFinished)
    ));
    assert!(spoken(&rx).is_empty());
}

#[test]
fn finish_at_an_endpoint_says_the_final_once() {
    let (mut asr, rx) = open(SherpaOnnxConfig::default());
    push(&mut asr, 1_600, Some("bye"), false);
    let call = asr.finish().unwrap();
    exchange(&mut asr, call, 3, Some("bye"), true);
    assert_eq!(spoken(&rx), vec!["partial 100 bye", "final 0-100 bye", "ended 100"]);
}

#[test]
fn an_empty_session_ends_with_the_end_of_speech_alone() {
    let (mut asr, rx) = open(SherpaOnnxConfig::default());
    let call = asr.finish().unwrap();
    exchange(&mut asr, call, 0, None, false);
    assert_eq!(spoken(&rx), vec!["ended 0"]);
}

#[test]
fn reset_starts_a_fresh_utterance() {
    let (mut asr, rx) = open(SherpaOnnxConfig::default());
    push(&mut asr, 1_600, Some("hello"), false);
    assert!(!asr.reset(Channel::Remote).unwrap());
    assert!(asr.reset(Channel::Local).unwrap());
    push(&mut asr, 1_600, Some("hello"), true);
    assert_eq!(
        spoken(&rx),
        vec!["partial 100 hello", "partial 200 hello", "final 100-200 hello"]
    );
}

#[test]
fn a_final_spans_every_partial_it_replaces() {
    let (mut asr, rx) = open(SherpaOnnxConfig::default());
    push(&mut asr, 1600, Some("one"), true);
    push(&mut asr, 1600, None, true);
    push(&mut asr, 1600, Some("tw"), false);
    push(&mut asr, 1600, Some("two"), true);
    assert_eq!(
        spoken(&rx),
        [
            "partial 100 one",
            "final 0-100 one",
            "partial 300 tw",
            "partial 400 two",
            "final 200-400 two",
        ]
    );

    // A reset in between leaves the partial before it to nobody.
    push(&mut asr, 1600, Some("three"), false);
    push(&mut asr, 1600, None, false);
    assert!(asr.reset(Channel::Local).unwrap());
    push(&mut asr, 1600, Some("four"), true);
    assert_eq!(
        spoken(&rx),
        ["partial 500 three", "partial 700 four", "final 600-700 four"]
    );
}

#[test]
fn refused_frames_have_no_effect() {
    let (mut asr, rx) = open(SherpaOnnxConfig::default());
    let block = vec![0i16; 160];

    let frame = AudioFrame::new(&block, 16_000);
    match asr.push_audio(&frame, Channel::Remote) {
        Some(Err(AsrError::InvalidFrame(text))) => {
            assert_eq!(text, "sherpa-onnx Phase 1 backend supports Channel::Local only");
        }
        other => panic!("unexpected {other:?}"),
    }

    let frame = AudioFrame::new(&block, 8_000);
    match asr.push_audio(&frame, Channel::Local) {
        Some(Err(AsrError::InvalidFrame(text))) => {
            assert_eq!(text, "sherpa-onnx Phase 1 backend requires 16 kHz audio, got 8000 Hz");
        }
        other => panic!("unexpected {other:?}"),
    }

    // The channel is judged before the rate.
    match asr.push_audio(&frame, Channel::Remote) {
        Some(Err(AsrError::InvalidFrame(text))) => assert!(text.contains("Channel::Local")),
        other => panic!("unexpected {other:?}"),
    }

    assert_eq!(asr.current_ms(), 0);
    assert_eq!(asr.pending(), None);
    assert!(spoken(&rx).is_empty());
}

#[test]
fn the_clock_counts_whole_milliseconds() {
    let (mut asr, _rx) = open(SherpaOnnxConfig::default());
    push(&mut asr, 15, None, false);
    assert_eq!(asr.current_ms(), 0);
    push(&mut asr, 1, None, false);
    assert_eq!(asr.current_ms(), 1);
    push(&mut asr, 16_000, None, false);
    assert_eq!(asr.current_ms(), 1_001);
}

#[test]
fn a_counter_that_cannot_take_the_frame_is_reported() {
    let (mut asr, _rx) = open(SherpaOnnxConfig::default());
    let call = asr.accept_samples(Channel::Local, 16_000, usize::MAX).unwrap();
    exchange(&mut asr, call, 0, None, false);
    let frame = AudioFrame::new(&[0i16; 1][..], 16_000);
    assert!(asr.push_audio(&frame, Channel::Local).is_none());
    // A frame that is refused anyway is refused as usual.
    assert!(matches!(
        asr.push_audio(&frame, Channel::Remote),
        Some(Err(AsrError::InvalidFrame(_)))
    ));
}
