use std::path::PathBuf;

use wavekat_asr::download::{
    download_files_with_progress, hf_hub_cache_root, is_repo_cached, snapshot_satisfies_files,
    snapshots_dir, CacheEnv, CallbackProgress, DownloadProgress, Snapshot,
};
use wavekat_asr::AsrError;

fn snapshot(present: &[&str]) -> Snapshot {
    Snapshot { is_dir: true, present: present.iter().map(|name| name.to_string()).collect() }
}

fn env(hf_home: Option<&str>, home: Option<&str>, user_profile: Option<&str>) -> CacheEnv {
    CacheEnv {
        hf_home: hf_home.map(PathBuf::from),
        home: home.map(PathBuf::from),
        user_profile: user_profile.map(PathBuf::from),
    }
}

fn backend_message(result: Result<(), AsrError>) -> String {
    match result {
        Err(AsrError::Backend(message)) => message,
        other => panic!("expected Backend error, got {other:?}"),
    }
}

#[test]
fn callback_progress_reports_init_update_and_finish() {
    let mut got: Vec<DownloadProgress> = Vec::new();
    let mut adapter = CallbackProgress {
        file: "encoder.onnx".to_string(),
        file_index: 1,
        file_count: 4,
        bytes_done: 0,
        bytes_total: None,
    };

    got.push(adapter.init(1000, "encoder.onnx"));
    got.push(adapter.update(400));
    got.push(adapter.update(600));
    got.extend(adapter.finish());

    // 1 init + 2 updates = 3 emissions. `finish` should NOT add a
    // 4th since bytes_done already equals bytes_total.
    assert_eq!(got.len(), 3);

    assert_eq!(got[0].bytes_done, 0);
    assert_eq!(got[0].bytes_total, Some(1000));
    assert_eq!(got[0].file_index, 1);
    assert_eq!(got[0].file_count, 4);
    assert_eq!(got[0].file, "encoder.onnx");

    assert_eq!(got[1].bytes_done, 400);
    assert_eq!(got[2].bytes_done, 1000);
}

/// If the last `update` short-counts, `finish` should synthesize a final
/// 100% event so the UI can't get stuck at 99%.
#[test]
fn callback_progress_finish_synthesizes_completion() {
    let mut got: Vec<DownloadProgress> = Vec::new();
    let mut adapter = CallbackProgress {
        file: "tokens.txt".to_string(),
        file_index: 4,
        file_count: 4,
        bytes_done: 0,
        bytes_total: None,
    };

    got.push(adapter.init(500, "tokens.txt"));
    got.push(adapter.update(400)); // short
    got.extend(adapter.finish()); // should push a synthetic 500/500

    assert_eq!(got.len(), 3);
    assert_eq!(got.last().unwrap().bytes_done, 500);
    assert_eq!(got.last().unwrap().bytes_total, Some(500));
}

#[test]
fn progress_before_init_knows_no_total() {
    let mut adapter = CallbackProgress {
        file: "f".to_string(),
        file_index: 1,
        file_count: 1,
        bytes_done: 0,
        bytes_total: None,
    };
    assert_eq!(adapter.emit().bytes_total, None);
    assert!(adapter.finish().is_none());
    assert_eq!(adapter.update(3).bytes_done, 3);
}

#[test]
fn progress_saturates_and_finish_reports_once() {
    let mut adapter = CallbackProgress {
        file: "f".to_string(),
        file_index: 1,
        file_count: 1,
        bytes_done: u64::MAX - 1,
        bytes_total: None,
    };
    assert_eq!(adapter.update(5).bytes_done, u64::MAX);
    adapter.init(10, "f");
    assert_eq!(adapter.finish().unwrap().bytes_done, 10);
    assert!(adapter.finish().is_none());
}

/// Walk the on-disk layout the hub's cache has
/// (`<cache_root>/models--<owner>--<repo>/snapshots/<commit>/<file>`)
/// and verify the probe (a) returns false for a missing repo,
/// partial files, or empty snapshot dirs and (b) returns true
/// once every requested file is present in at least one snapshot.
#[test]
fn snapshot_probe_matches_hf_hub_layout() {
    let repo_id = "csukuangfj/sherpa-onnx-streaming-zipformer-bilingual-zh-en-2023-02-20";
    let files = ["encoder.onnx", "decoder.onnx", "tokens.txt"];
    // Each stage of the cache, as a listing of the `snapshots` directory:
    // the entries (`abc123`, then `def456`) with the files they hold.
    let probe = |stage: usize| {
        is_repo_cached(
            repo_id,
            &files,
            env(Some("/snapshot-probe"), None, None),
            |path: &PathBuf, asked: &[&str]| {
                assert_eq!(asked, &files);
                let repo_dir = PathBuf::from("/snapshot-probe")
                    .join("hub")
                    .join(format!("models--{}", repo_id.replace('/', "--")));
                assert_eq!(*path, repo_dir.join("snapshots"));
                match stage {
                    0 => None,
                    1 => Some(vec![snapshot(&[])]),
                    2 => Some(vec![snapshot(&["encoder.onnx", "decoder.onnx"])]),
                    3 => Some(vec![snapshot(&["encoder.onnx", "decoder.onnx", "tokens.txt"])]),
                    _ => Some(vec![
                        snapshot(&["encoder.onnx", "decoder.onnx", "tokens.txt"]),
                        snapshot(&["encoder.onnx"]),
                    ]),
                }
            },
        )
    };

    assert!(!probe(0));
    assert!(!probe(1));
    assert!(!probe(2));
    assert!(probe(3));
    // A second, half-complete snapshot must not invalidate the
    // first complete one.
    assert!(probe(4));
}

/// Slash-bearing repo ids must be flattened to the `<owner>--<repo>`
/// form of the cache; without that the probe would silently look
/// in a nonexistent directory and always report `false`.
#[test]
fn snapshot_probe_flattens_slashes_in_repo_id() {
    let repo_id = "owner/repo";
    let found = is_repo_cached(
        repo_id,
        &["model.onnx"],
        env(Some("/slash-flatten"), None, None),
        |path: &PathBuf, _asked: &[&str]| {
            let here = path.ends_with("models--owner--repo/snapshots");
            if here { Some(vec![snapshot(&["model.onnx"])]) } else { None }
        },
    );
    assert!(found);
}

#[test]
fn files_and_half_snapshots_do_not_satisfy() {
    let files = ["a", "b"];
    let a_file = Snapshot { is_dir: false, present: vec!["a".to_string(), "b".to_string()] };
    assert!(!snapshot_satisfies_files(&Some(vec![a_file]), &files));
    assert!(!snapshot_satisfies_files(&Some(vec![snapshot(&["a"]), snapshot(&["b"])]), &files));
    assert!(snapshot_satisfies_files(&Some(vec![snapshot(&["a"]), snapshot(&["b", "a"])]), &files));
    assert!(snapshot_satisfies_files(&Some(vec![snapshot(&[])]), &[]));
    assert!(!snapshot_satisfies_files(&Some(vec![]), &[]));
    assert!(!snapshot_satisfies_files(&None, &[]));
}

#[test]
fn cache_root_prefers_hf_home_then_home_then_user_profile() {
    let root = hf_hub_cache_root(env(Some("/hf"), Some("/home"), Some("/up"))).unwrap();
    assert_eq!(root, PathBuf::from("/hf/hub"));

    let root = hf_hub_cache_root(env(None, Some("/home"), Some("/up"))).unwrap();
    assert_eq!(root, PathBuf::from("/home/.cache/huggingface/hub"));

    let root = hf_hub_cache_root(env(None, None, Some("/up"))).unwrap();
    assert_eq!(root, PathBuf::from("/up/.cache/huggingface/hub"));

    assert!(hf_hub_cache_root(env(None, None, None)).is_none());
}

#[test]
fn nothing_is_listed_without_a_cache_root() {
    let cached = is_repo_cached("o/r", &["f"], env(None, None, None), |_, _| {
        panic!("must not be asked")
    });
    assert!(!cached);
}

#[test]
fn repo_folder_is_one_level() {
    let path = snapshots_dir(&PathBuf::from("/c"), "a/b/c");
    assert_eq!(path, PathBuf::from("/c/models--a--b--c/snapshots"));
}

#[test]
fn download_fetches_and_copies_every_file_in_order() {
    let (result, log) = download_files_with_progress(
        "owner/repo",
        &["a", "b"],
        &PathBuf::from("/dest"),
        |dir: &PathBuf, mut log: Vec<String>| {
            log.push(format!("mkdir {}", dir.display()));
            (Ok(()), log)
        },
        |repo: &str, mut log: Vec<String>| {
            log.push(format!("open {repo}"));
            (Ok(7u8), log)
        },
        |hub: &u8, name: &str, progress: CallbackProgress, mut log: Vec<String>| {
            assert_eq!(*hub, 7);
            assert_eq!(progress.file, name);
            assert_eq!((progress.bytes_done, progress.bytes_total), (0, None));
            log.push(format!("fetch {name} {} of {}", progress.file_index, progress.file_count));
            (Ok(PathBuf::from("/cache").join(name)), log)
        },
        |source: &PathBuf, dest: &PathBuf, mut log: Vec<String>| {
            log.push(format!("copy {} to {}", source.display(), dest.display()));
            (Ok(()), log)
        },
        Vec::new(),
    );
    assert!(result.is_ok());
    assert_eq!(
        log,
        vec![
            "mkdir /dest",
            "open owner/repo",
            "fetch a 1 of 2",
            "copy /cache/a to /dest/a",
            "fetch b 2 of 2",
            "copy /cache/b to /dest/b",
        ]
    );
}

#[test]
fn a_batch_reports_file_by_file() {
    let sizes = [("a", 10usize, vec![4usize, 6]), ("b", 5, vec![3])];
    let (result, reports) = download_files_with_progress(
        "owner/repo",
        &["a", "b"],
        &PathBuf::from("/dest"),
        |_: &PathBuf, reports: Vec<DownloadProgress>| (Ok(()), reports),
        |_: &str, reports: Vec<DownloadProgress>| (Ok(()), reports),
        |_: &(), name: &str, progress: CallbackProgress, reports: Vec<DownloadProgress>| {
            let (mut progress, mut reports) = (progress, reports);
            for (file, size, chunks) in &sizes {
                if *file == name {
                    reports.push(progress.init(*size, name));
                    for chunk in chunks {
                        reports.push(progress.update(*chunk));
                    }
                    reports.extend(progress.finish());
                }
            }
            (Ok(PathBuf::from(name)), reports)
        },
        |_: &PathBuf, _: &PathBuf, reports: Vec<DownloadProgress>| (Ok(()), reports),
        Vec::new(),
    );
    assert!(result.is_ok());
    let seen: Vec<(String, usize, usize, u64, Option<u64>)> = reports
        .into_iter()
        .map(|r| (r.file, r.file_index, r.file_count, r.bytes_done, r.bytes_total))
        .collect();
    assert_eq!(
        seen,
        vec![
            ("a".to_string(), 1, 2, 0, Some(10)),
            ("a".to_string(), 1, 2, 4, Some(10)),
            ("a".to_string(), 1, 2, 10, Some(10)),
            ("b".to_string(), 2, 2, 0, Some(5)),
            ("b".to_string(), 2, 2, 3, Some(5)),
            ("b".to_string(), 2, 2, 5, Some(5)),
        ]
    );
}

#[test]
fn what_was_downloaded_is_cached() {
    let files = ["a", "b"];
    let cached = |held: &Vec<String>| {
        is_repo_cached(
            "owner/repo",
            &files,
            env(Some("/hf"), None, None),
            |path: &PathBuf, asked: &[&str]| {
                assert_eq!(*path, PathBuf::from("/hf/hub/models--owner--repo/snapshots"));
                let present: Vec<&str> =
                    asked.iter().copied().filter(|name| held.iter().any(|h| h == name)).collect();
                Some(vec![snapshot(&[]), snapshot(&present)])
            },
        )
    };
    let download = |missing: &str| {
        download_files_with_progress(
            "owner/repo",
            &files,
            &PathBuf::from("/dest"),
            |_: &PathBuf, held: Vec<String>| (Ok(()), held),
            |_: &str, held: Vec<String>| (Ok(()), held),
            |_: &(), name: &str, _: CallbackProgress, mut held: Vec<String>| {
                if name == missing {
                    return (Err("404".to_string()), held);
                }
                held.push(name.to_string());
                (Ok(PathBuf::from("/hf").join(name)), held)
            },
            |_: &PathBuf, _: &PathBuf, held: Vec<String>| (Ok(()), held),
            Vec::new(),
        )
    };
    assert!(!cached(&Vec::new()));
    let (result, held) = download("");
    assert!(result.is_ok());
    assert!(cached(&held));
    let (result, held) = download("b");
    assert!(result.is_err());
    assert!(!cached(&held));
}

#[test]
fn download_stops_at_the_first_failure() {
    fn run(
        make_dir: Result<(), String>,
        hub: Result<u8, String>,
        failing_fetch: &str,
        failing_copy: &str,
    ) -> (Result<(), AsrError>, Vec<String>) {
        download_files_with_progress(
            "owner/repo",
            &["a", "b"],
            &PathBuf::from("/dest"),
            |_: &PathBuf, log: Vec<String>| (make_dir.clone(), log),
            |_: &str, mut log: Vec<String>| {
                log.push("open".to_string());
                (hub.clone(), log)
            },
            |_: &u8, name: &str, _: CallbackProgress, mut log: Vec<String>| {
                log.push(format!("fetch {name}"));
                if name == failing_fetch {
                    (Err("404".to_string()), log)
                } else {
                    (Ok(PathBuf::from("/cache").join(name)), log)
                }
            },
            |_: &PathBuf, dest: &PathBuf, mut log: Vec<String>| {
                log.push(format!("copy {}", dest.display()));
                if dest.ends_with(failing_copy) {
                    (Err("disk full".to_string()), log)
                } else {
                    (Ok(()), log)
                }
            },
            Vec::new(),
        )
    }

    let (result, log) = run(Err("read-only".to_string()), Ok(1), "-", "-");
    assert_eq!(backend_message(result), "creating model directory /dest: read-only");
    assert!(log.is_empty());

    let (result, log) = run(Ok(()), Err("no token".to_string()), "-", "-");
    assert_eq!(backend_message(result), "hf-hub init failed: no token");
    assert_eq!(log, vec!["open"]);

    let (result, log) = run(Ok(()), Ok(1), "a", "-");
    assert_eq!(backend_message(result), "hf-hub download of a failed: 404");
    assert_eq!(log, vec!["open", "fetch a"]);

    let (result, log) = run(Ok(()), Ok(1), "-", "b");
    assert_eq!(backend_message(result), "copying /cache/b to /dest/b: disk full");
    assert_eq!(log, vec!["open", "fetch a", "copy /dest/a", "fetch b", "copy /dest/b"]);
}

#[test]
fn error_messages() {
    assert_eq!(AsrError::Backend("x".to_string()).message(), "backend error: x");
    assert_eq!(AsrError::InvalidFrame("y".to_string()).message(), "invalid audio frame: y");
    assert_eq!(AsrError::AlreadyFinished.message(), "session already finished");
    assert_eq!(
        AsrError::BackendNotEnabled.message(),
        "backend not compiled in — enable the matching Cargo feature"
    );
    let io = std::io::Error::new(std::io::ErrorKind::Other, "boom");
    assert_eq!(AsrError::from(io).message(), "io: boom");
}

#[test]
fn text_helpers() {
    assert_eq!(wavekat_asr::text::decimal(0), "0");
    assert_eq!(wavekat_asr::text::decimal(48_000), "48000");
    assert_eq!(wavekat_asr::text::decimal(u32::MAX), "4294967295");
    assert_eq!(wavekat_asr::text::replace("a/ü/", '/', "--"), "a--ü--");
    assert_eq!(wavekat_asr::text::join("ab", "cd"), "abcd");
    assert!(wavekat_asr::text::same("x", "x"));
    assert!(!wavekat_asr::text::same("x", "y"));
}
