//! The offline cache probe: is a repo already on disk?

use std::path::PathBuf;
use vstd::prelude::*;

use crate::outside::path_join;

verus! {

/// The texts of a list of strings.
pub open spec fn texts(list: Seq<&str>) -> Seq<Seq<char>> {
    list.map_values(|s: &str| s@)
}

/// The environment variables that decide where the hub's cache lies, each as
/// the path it holds, or `None` where it is not set.
#[derive(Debug)]
pub struct CacheEnv {
    /// `HF_HOME`.
    pub hf_home: Option<PathBuf>,
    /// `HOME`.
    pub home: Option<PathBuf>,
    /// `USERPROFILE`.
    pub user_profile: Option<PathBuf>,
}

/// One entry of a repo's `snapshots` directory: whether it is a directory,
/// and which of the files that were asked for exist in it.
#[derive(Debug)]
pub struct Snapshot {
    pub is_dir: bool,
    pub present: Vec<String>,
}

/// What a [`Snapshot`] says.
pub struct SnapshotView {
    pub is_dir: bool,
    pub present: Seq<Seq<char>>,
}

impl View for Snapshot {
    type V = SnapshotView;

    open spec fn view(&self) -> SnapshotView {
        SnapshotView {
            is_dir: self.is_dir,
            present: self.present@.map_values(|name: String| name@),
        }
    }
}

impl SnapshotView {
    /// Whether this is a directory with every one of these files.
    pub open spec fn is_complete(self, files: Seq<Seq<char>>) -> bool {
        self.is_dir && forall|j: int| 0 <= j < files.len() ==> self.present.contains(
            #[trigger] files[j],
        )
    }
}

/// What is known of a `snapshots` directory; `None` if it cannot be listed.
pub open spec fn listing(snapshots: Option<Vec<Snapshot>>) -> Option<Seq<SnapshotView>> {
    match snapshots {
        Some(entries) => Some(entries@.map_values(|snapshot: Snapshot| snapshot@)),
        None => None,
    }
}

/// Whether some snapshot holds every file.
pub open spec fn some_snapshot_is_complete(
    snapshots: Seq<SnapshotView>,
    files: Seq<Seq<char>>,
) -> bool {
    exists|i: int| 0 <= i < snapshots.len() && (#[trigger] snapshots[i]).is_complete(files)
}

/// Whether a listing shows a snapshot with every file.
pub open spec fn shows_complete_snapshot(
    snapshots: Option<Seq<SnapshotView>>,
    files: Seq<Seq<char>>,
) -> bool {
    snapshots matches Some(entries) && some_snapshot_is_complete(entries, files)
}

/// The directory `.cache/huggingface/hub` below a home directory.
pub open spec fn cache_below(home: PathBuf) -> PathBuf {
    crate::outside::path_joined(
        crate::outside::path_joined(
            crate::outside::path_joined(home, ".cache"@),
            "huggingface"@,
        ),
        "hub"@,
    )
}

/// Where the hub's cache lies: `$HF_HOME/hub`, else
/// `$HOME/.cache/huggingface/hub`, else the same below `$USERPROFILE`.
pub open spec fn cache_root(env: CacheEnv) -> Option<PathBuf> {
    match (env.hf_home, env.home, env.user_profile) {
        (Some(base), _, _) => Some(crate::outside::path_joined(base, "hub"@)),
        (None, Some(base), _) => Some(cache_below(base)),
        (None, None, Some(base)) => Some(cache_below(base)),
        (None, None, None) => None,
    }
}

/// The directory of a model repo inside the cache: `models--<owner>--<repo>`.
pub open spec fn repo_folder(repo_id: Seq<char>) -> Seq<char> {
    "models--"@ + crate::text::replaced(repo_id, '/', "--"@)
}

/// The `snapshots` directory of a repo, in the cache rooted here.
pub open spec fn snapshots_of(root: PathBuf, repo_id: Seq<char>) -> PathBuf {
    crate::outside::path_joined(
        crate::outside::path_joined(root, repo_folder(repo_id)),
        "snapshots"@,
    )
}

/// Resolve the hub's on-disk cache root the same way `hf-hub` 0.5 does.
/// Honors `HF_HOME` (appending `hub`), then falls back to
/// `$HOME/.cache/huggingface/hub`. `None` only when no variable is set.
pub fn hf_hub_cache_root(env: CacheEnv) -> (root: Option<PathBuf>)
    ensures
        root == cache_root(env),
{
    if let Some(base) = env.hf_home {
        return Some(path_join(&base, "hub"));
    }
    let home: Option<PathBuf> = match env.home {
        Some(home) => Some(home),
        None => env.user_profile,
    };
    match home {
        Some(base) => {
            let cache: PathBuf = path_join(&base, ".cache");
            let huggingface: PathBuf = path_join(&cache, "huggingface");
            Some(path_join(&huggingface, "hub"))
        },
        None => None,
    }
}

/// The `snapshots` directory of `repo_id` in the cache at `root`.
pub fn snapshots_dir(root: &PathBuf, repo_id: &str) -> (path: PathBuf)
    ensures
        path == snapshots_of(*root, repo_id@),
{
    let flat: String = crate::text::replace(repo_id, '/', "--");
    let folder: String = crate::text::join("models--", flat.as_str());
    let repo_dir: PathBuf = path_join(root, folder.as_str());
    path_join(&repo_dir, "snapshots")
}

/// Whether a list of names holds this one.
fn holds(names: &Vec<String>, name: &str) -> (held: bool)
    ensures
        held == names@.map_values(|n: String| n@).contains(name@),
{
    let ghost views = names@.map_values(|n: String| n@);
    for i in 0..names.len()
        invariant
            views == names@.map_values(|n: String| n@),
            forall|k: int| 0 <= k < i ==> views[k] != name@,
    {
        if crate::text::same(names[i].as_str(), name) {
            assert(views[i as int] == name@);
            return true;
        }
    }
    false
}

/// Whether a snapshot is a directory with every file.
fn is_complete(snapshot: &Snapshot, files: &[&str]) -> (complete: bool)
    ensures
        complete == snapshot@.is_complete(texts(files@)),
{
    if !snapshot.is_dir {
        return false;
    }
    for j in 0..files.len()
        invariant
            forall|k: int| 0 <= k < j ==> snapshot@.present.contains(#[trigger] texts(files@)[k]),
    {
        let name: &str = files[j];
        if !holds(&snapshot.present, name) {
            assert(!snapshot@.present.contains(texts(files@)[j as int]));
            return false;
        }
    }
    true
}

/// `true` iff some snapshot directory contains every file in `files`; a
/// `snapshots` directory that cannot be listed holds none.
pub fn snapshot_satisfies_files(snapshots: &Option<Vec<Snapshot>>, files: &[&str]) -> (satisfied:
    bool)
    ensures
        satisfied == shows_complete_snapshot(listing(*snapshots), texts(files@)),
{
    match snapshots {
        None => false,
        Some(entries) => {
            let ghost views = entries@.map_values(|snapshot: Snapshot| snapshot@);
            for i in 0..entries.len()
                invariant
                    views == entries@.map_values(|snapshot: Snapshot| snapshot@),
                    listing(*snapshots) == Some(views),
                    forall|k: int|
                        0 <= k < i ==> !(#[trigger] views[k]).is_complete(texts(files@)),
            {
                if is_complete(&entries[i], files) {
                    assert(views[i as int].is_complete(texts(files@)));
                    return true;
                }
            }
            false
        },
    }
}

/// What a look into the cache gives: whether the listing of the repo's
/// `snapshots` directory shows one with every file. Without a cache root
/// nothing is cached.
pub open spec fn probe_gave<L>(
    repo_id: Seq<char>,
    files: &[&str],
    env: CacheEnv,
    list: L,
    cached: bool,
) -> bool where L: Fn(&PathBuf, &[&str]) -> Option<Vec<Snapshot>> {
    match cache_root(env) {
        None => !cached,
        Some(root) => exists|snapshots: Option<Vec<Snapshot>>|
            {
                &&& #[trigger] call_ensures(
                    list,
                    (&snapshots_of(root, repo_id), files),
                    snapshots,
                )
                &&& cached == shows_complete_snapshot(listing(snapshots), texts(files@))
            },
    }
}

/// `true` iff every file in `files` is already present in one snapshot of
/// the local HuggingFace Hub cache for `repo_id`: no network metadata fetch,
/// no download, so safe to call in a UI hot path that needs to decide between
/// rendering a "Download" affordance and a "Ready" indicator.
///
/// `list` reads the directory it is given: for each entry, whether it is a
/// directory and which of the files exist in it; `None` if the directory
/// cannot be listed. It is asked about the repo's `snapshots` directory, and
/// only where a cache root can be determined at all.
///
/// Pair with [`download_files_with_progress`](super::download_files_with_progress):
/// the same `(repo_id, files)` pair you pass there can be passed here to ask
/// "do I still need to download?".
pub fn is_repo_cached<L>(repo_id: &str, files: &[&str], env: CacheEnv, list: L) -> (cached: bool)
    where L: Fn(&PathBuf, &[&str]) -> Option<Vec<Snapshot>>,
    requires
        cache_root(env) matches Some(root) ==> call_requires(
            list,
            (&snapshots_of(root, repo_id@), files),
        ),
    ensures
        probe_gave(repo_id@, files, env, list, cached),
{
    match hf_hub_cache_root(env) {
        None => false,
        Some(root) => {
            let path: PathBuf = snapshots_dir(&root, repo_id);
            let snapshots: Option<Vec<Snapshot>> = list(&path, files);
            snapshot_satisfies_files(&snapshots, files)
        },
    }
}

/// The id `<owner>/<repo>` is looked up in `models--<owner>--<repo>`.
pub proof fn law_repo_folder_joins_owner_and_repo(owner: Seq<char>, repo: Seq<char>)
    requires
        !owner.contains('/'),
        !repo.contains('/'),
    ensures
        repo_folder(owner + seq!['/'] + repo) == "models--"@ + owner + "--"@ + repo,
{
    crate::text::lemma_replaced_in_two_parts(owner + seq!['/'], repo, '/', "--"@);
    crate::text::lemma_replaced_in_two_parts(owner, seq!['/'], '/', "--"@);
    crate::text::lemma_replaced_without_match(owner, '/', "--"@);
    crate::text::lemma_replaced_without_match(repo, '/', "--"@);
    assert(seq!['/'].drop_last() == Seq::<char>::empty());
    assert(crate::text::replaced(Seq::empty(), '/', "--"@) == Seq::<char>::empty());
}

/// Whatever the id, the repo's folder is a single directory name: no slash
/// is left in it.
pub proof fn law_repo_folder_is_one_level(repo_id: Seq<char>)
    ensures
        !repo_folder(repo_id).contains('/'),
{
    reveal_strlit("models--");
    reveal_strlit("--");
    crate::text::lemma_replaced_has_no_match(repo_id, '/', "--"@);
}

/// Snapshots are judged one by one: neither a missing nor a half-complete
/// one takes away what another has.
pub proof fn law_snapshots_are_judged_one_by_one(
    a: Seq<SnapshotView>,
    b: Seq<SnapshotView>,
    files: Seq<Seq<char>>,
)
    ensures
        some_snapshot_is_complete(a + b, files) <==> some_snapshot_is_complete(a, files)
            || some_snapshot_is_complete(b, files),
{
    if some_snapshot_is_complete(a, files) {
        let i = choose|i: int| 0 <= i < a.len() && (#[trigger] a[i]).is_complete(files);
        assert((a + b)[i] == a[i]);
    }
    if some_snapshot_is_complete(b, files) {
        let i = choose|i: int| 0 <= i < b.len() && (#[trigger] b[i]).is_complete(files);
        assert((a + b)[a.len() + i] == b[i]);
    }
}

} // verus!
