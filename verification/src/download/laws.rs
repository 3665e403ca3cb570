//! What holds of every download and of every look into the hub's cache: which
//! calls a download makes, what a successful one leaves behind, and what the
//! look answers.
//!
//! The disk is not part of the crate. The laws on what is left behind speak of it through the hand
//! on the outside that a download takes and gives back: a predicate says what
//! is on disk as a hand sees it, and the premises say what one successful
//! call of a closure does to that.

use std::path::PathBuf;
use vstd::prelude::*;

use super::cache::{CacheEnv, Snapshot};
use super::progress::CallbackProgress;
use crate::error::ErrorView;
use crate::AsrError;

verus! {

/// What an arriving file secures, and every later one keeps, holds of all
/// files that arrived.
proof fn lemma_arrived_files_are_secured<H, W, D, P>(
    hub: H,
    files: Seq<&str>,
    n: nat,
    dest_dir: PathBuf,
    fetch: D,
    copy: P,
    start: W,
    now: W,
    secured: spec_fn(W, int) -> bool,
) where
    D: Fn(&H, &str, CallbackProgress, W) -> (Result<PathBuf, String>, W),
    P: Fn(&PathBuf, &PathBuf, W) -> (Result<(), String>, W),

    requires
        super::batch::files_arrived::<H, W, D, P>(
            hub,
            files,
            n,
            dest_dir,
            fetch,
            copy,
            start,
            now,
        ),
        n <= files.len(),
        forall|index: int, before: W, after: W|
            0 <= index < files.len() && #[trigger] super::batch::file_arrived::<H, W, D, P>(
                hub,
                files,
                index,
                dest_dir,
                fetch,
                copy,
                before,
                after,
            ) ==> secured(after, index) && forall|i: int|
                0 <= i < files.len() && secured(before, i) ==> #[trigger] secured(after, i),
    ensures
        forall|i: int| 0 <= i < n ==> #[trigger] secured(now, i),
    decreases n,
{
    if n > 0 {
        let before = choose|before: W|
            {
                &&& super::batch::files_arrived::<H, W, D, P>(
                    hub,
                    files,
                    (n - 1) as nat,
                    dest_dir,
                    fetch,
                    copy,
                    start,
                    before,
                )
                &&& #[trigger] super::batch::file_arrived::<H, W, D, P>(
                    hub,
                    files,
                    n - 1,
                    dest_dir,
                    fetch,
                    copy,
                    before,
                    now,
                )
            };
        lemma_arrived_files_are_secured::<H, W, D, P>(
            hub,
            files,
            (n - 1) as nat,
            dest_dir,
            fetch,
            copy,
            start,
            before,
            secured,
        );
    }
}

proof fn lemma_downloaded_files_are_secured<H, W, M, C, D, P>(
    repo_id: &str,
    files: Seq<&str>,
    dest_dir: PathBuf,
    make_dir: M,
    connect: C,
    fetch: D,
    copy: P,
    start: W,
    now: W,
    secured: spec_fn(W, int) -> bool,
) where
    M: Fn(&PathBuf, W) -> (Result<(), String>, W),
    C: Fn(&str, W) -> (Result<H, String>, W),
    D: Fn(&H, &str, CallbackProgress, W) -> (Result<PathBuf, String>, W),
    P: Fn(&PathBuf, &PathBuf, W) -> (Result<(), String>, W),

    requires
        super::batch::download_came_to::<H, W, M, C, D, P>(
            repo_id,
            files,
            dest_dir,
            make_dir,
            connect,
            fetch,
            copy,
            start,
            Ok::<(), AsrError>(()),
            now,
        ),
        forall|hub: H, index: int, before: W, after: W|
            0 <= index < files.len() && #[trigger] super::batch::file_arrived::<H, W, D, P>(
                hub,
                files,
                index,
                dest_dir,
                fetch,
                copy,
                before,
                after,
            ) ==> secured(after, index) && forall|i: int|
                0 <= i < files.len() && secured(before, i) ==> #[trigger] secured(after, i),
    ensures
        forall|i: int| 0 <= i < files.len() ==> #[trigger] secured(now, i),
{
    let (hub, ready) = choose|hub: H, ready: W|
        {
            &&& #[trigger] super::batch::opened::<H, W, M, C>(
                repo_id,
                dest_dir,
                make_dir,
                connect,
                start,
                hub,
                ready,
            )
            &&& super::batch::files_arrived::<H, W, D, P>(
                hub,
                files,
                files.len(),
                dest_dir,
                fetch,
                copy,
                ready,
                now,
            )
        };
    lemma_arrived_files_are_secured::<H, W, D, P>(
        hub,
        files,
        files.len(),
        dest_dir,
        fetch,
        copy,
        ready,
        now,
        secured,
    );
}

/// Where these files go in a directory.
pub open spec fn destination(dest_dir: PathBuf, files: Seq<&str>, i: int) -> PathBuf {
    crate::outside::path_joined(dest_dir, files[i]@)
}

/// How `fetch` and `copy` treat a destination directory, as far as they
/// succeed: what is copied to a path is there then, and neither a fetch nor a
/// copy takes away what is there under the name of one of these files.
pub open spec fn directory_fills_up<H, W, D, P>(
    dest_dir: PathBuf,
    files: Seq<&str>,
    fetch: D,
    copy: P,
    there: spec_fn(W, PathBuf) -> bool,
) -> bool where
    D: Fn(&H, &str, CallbackProgress, W) -> (Result<PathBuf, String>, W),
    P: Fn(&PathBuf, &PathBuf, W) -> (Result<(), String>, W),
 {
    &&& forall|source: PathBuf, dest: PathBuf, before: W, after: W| #[trigger]
        call_ensures(copy, (&source, &dest, before), (Ok(()), after)) ==> there(after, dest)
    &&& forall|source: PathBuf, dest: PathBuf, before: W, after: W, i: int|
        #![trigger call_ensures(copy, (&source, &dest, before), (Ok(()), after)),
            destination(dest_dir, files, i)]
        call_ensures(copy, (&source, &dest, before), (Ok(()), after)) && 0 <= i < files.len()
            && there(before, destination(dest_dir, files, i)) ==> there(
            after,
            destination(dest_dir, files, i),
        )
    &&& forall|
        hub: H,
        name: &str,
        progress: CallbackProgress,
        source: PathBuf,
        before: W,
        after: W,
        i: int,
    |
        #![trigger call_ensures(fetch, (&hub, name, progress, before), (Ok(source), after)),
            destination(dest_dir, files, i)]
        call_ensures(fetch, (&hub, name, progress, before), (Ok(source), after)) && 0 <= i
            < files.len() && there(before, destination(dest_dir, files, i)) ==> there(
            after,
            destination(dest_dir, files, i),
        )
}

/// After a successful download every file is there, under its own name in
/// the destination directory.
pub proof fn law_downloaded_files_are_there<H, W, M, C, D, P>(
    repo_id: &str,
    files: Seq<&str>,
    dest_dir: PathBuf,
    make_dir: M,
    connect: C,
    fetch: D,
    copy: P,
    start: W,
    now: W,
    there: spec_fn(W, PathBuf) -> bool,
) where
    M: Fn(&PathBuf, W) -> (Result<(), String>, W),
    C: Fn(&str, W) -> (Result<H, String>, W),
    D: Fn(&H, &str, CallbackProgress, W) -> (Result<PathBuf, String>, W),
    P: Fn(&PathBuf, &PathBuf, W) -> (Result<(), String>, W),

    requires
        super::batch::download_came_to::<H, W, M, C, D, P>(
            repo_id,
            files,
            dest_dir,
            make_dir,
            connect,
            fetch,
            copy,
            start,
            Ok::<(), AsrError>(()),
            now,
        ),
        directory_fills_up::<H, W, D, P>(dest_dir, files, fetch, copy, there),
    ensures
        forall|i: int|
            0 <= i < files.len() ==> there(now, #[trigger] destination(dest_dir, files, i)),
{
    let secured = |hand: W, i: int| there(hand, destination(dest_dir, files, i));
    lemma_downloaded_files_are_secured::<H, W, M, C, D, P>(
        repo_id,
        files,
        dest_dir,
        make_dir,
        connect,
        fetch,
        copy,
        start,
        now,
        secured,
    );
    assert forall|i: int| 0 <= i < files.len() implies there(
        now,
        #[trigger] destination(dest_dir, files, i),
    ) by {
        assert(secured(now, i));
    }
}

/// How `fetch` and `copy` treat the hub's cache while the repo stays at one
/// commit, as far as they succeed: what is fetched is held by the commit's
/// snapshot then, and neither a fetch nor a copy takes one of these files out
/// of it.
pub open spec fn snapshot_fills_up<H, W, D, P>(
    files: Seq<&str>,
    fetch: D,
    copy: P,
    held: spec_fn(W, Seq<char>) -> bool,
) -> bool where
    D: Fn(&H, &str, CallbackProgress, W) -> (Result<PathBuf, String>, W),
    P: Fn(&PathBuf, &PathBuf, W) -> (Result<(), String>, W),
 {
    &&& forall|
        hub: H,
        name: &str,
        progress: CallbackProgress,
        source: PathBuf,
        before: W,
        after: W,
    | #[trigger]
        call_ensures(fetch, (&hub, name, progress, before), (Ok(source), after)) ==> held(
            after,
            name@,
        )
    &&& forall|
        hub: H,
        name: &str,
        progress: CallbackProgress,
        source: PathBuf,
        before: W,
        after: W,
        i: int,
    |
        #![trigger call_ensures(fetch, (&hub, name, progress, before), (Ok(source), after)),
            files[i]]
        call_ensures(fetch, (&hub, name, progress, before), (Ok(source), after)) && 0 <= i
            < files.len() && held(before, files[i]@) ==> held(after, files[i]@)
    &&& forall|source: PathBuf, dest: PathBuf, before: W, after: W, i: int|
        #![trigger call_ensures(copy, (&source, &dest, before), (Ok(()), after)), files[i]]
        call_ensures(copy, (&source, &dest, before), (Ok(()), after)) && 0 <= i < files.len()
            && held(before, files[i]@) ==> held(after, files[i]@)
}

/// What a listing of the repo's `snapshots` directory shows of the commit's
/// snapshot: if that holds any of these files, a directory with all of them
/// that it holds.
pub open spec fn listing_shows_snapshot(
    files: Seq<&str>,
    held: spec_fn(Seq<char>) -> bool,
    snapshots: Option<Vec<Snapshot>>,
) -> bool {
    (exists|i: int| 0 <= i < files.len() && held((#[trigger] files[i])@)) ==> {
        super::cache::listing(snapshots) matches Some(entries) && exists|k: int|
            {
                &&& 0 <= k < entries.len()
                &&& (#[trigger] entries[k]).is_dir
                &&& forall|i: int|
                    0 <= i < files.len() && held((#[trigger] files[i])@)
                        ==> entries[k].present.contains(files[i]@)
            }
    }
}

/// After a successful download of at least one file, asking whether the same
/// files of the same repo are cached is answered with yes: there is nothing
/// left to download. It holds where one of the variables that say where the
/// cache lies is set, and its listing shows what the download left in it; the
/// copies in the destination directory do not matter.
pub proof fn law_downloaded_repo_is_cached<H, W, M, C, D, P, L>(
    repo_id: &str,
    files: Seq<&str>,
    dest_dir: PathBuf,
    make_dir: M,
    connect: C,
    fetch: D,
    copy: P,
    start: W,
    now: W,
    held: spec_fn(W, Seq<char>) -> bool,
    asked: &[&str],
    env: CacheEnv,
    list: L,
    cached: bool,
) where
    M: Fn(&PathBuf, W) -> (Result<(), String>, W),
    C: Fn(&str, W) -> (Result<H, String>, W),
    D: Fn(&H, &str, CallbackProgress, W) -> (Result<PathBuf, String>, W),
    P: Fn(&PathBuf, &PathBuf, W) -> (Result<(), String>, W),
    L: Fn(&PathBuf, &[&str]) -> Option<Vec<Snapshot>>,

    requires
        files.len() > 0,
        super::cache::texts(asked@) == super::cache::texts(files),
        super::batch::download_came_to::<H, W, M, C, D, P>(
            repo_id,
            files,
            dest_dir,
            make_dir,
            connect,
            fetch,
            copy,
            start,
            Ok::<(), AsrError>(()),
            now,
        ),
        snapshot_fills_up::<H, W, D, P>(files, fetch, copy, held),
        env.hf_home is Some || env.home is Some || env.user_profile is Some,
        forall|snapshots: Option<Vec<Snapshot>>| #[trigger]
            call_ensures(
                list,
                (
                    &super::cache::snapshots_of(super::cache::cache_root(env)->0, repo_id@),
                    asked,
                ),
                snapshots,
            ) ==> listing_shows_snapshot(asked@, |name: Seq<char>| held(now, name), snapshots),
        super::cache::probe_gave(repo_id@, asked, env, list, cached),
    ensures
        cached,
{
    let secured = |hand: W, i: int| held(hand, files[i]@);
    lemma_downloaded_files_are_secured::<H, W, M, C, D, P>(
        repo_id,
        files,
        dest_dir,
        make_dir,
        connect,
        fetch,
        copy,
        start,
        now,
        secured,
    );
    assert(super::cache::texts(files).len() == files.len());
    assert forall|i: int| 0 <= i < asked@.len() implies held(now, (#[trigger] asked@[i])@) by {
        assert(super::cache::texts(files)[i] == files[i]@);
        assert(secured(now, i));
    }
    assert(held(now, asked@[0]@));
}

/// The file at this place was fetched, with progress that names it, its
/// position and the count of the files, and stands at zero with no total; and
/// this came of it.
pub open spec fn fetch_gave<H, W, D>(
    hub: H,
    files: Seq<&str>,
    i: int,
    fetch: D,
    before: W,
    outcome: Result<PathBuf, String>,
    after: W,
) -> bool where D: Fn(&H, &str, CallbackProgress, W) -> (Result<PathBuf, String>, W) {
    exists|progress: CallbackProgress|
        {
            &&& #[trigger] call_ensures(
                fetch,
                (&hub, files[i], progress, before),
                (outcome, after),
            )
            &&& progress.file@ == files[i]@
            &&& progress.file_index == i + 1
            &&& progress.file_count == files.len()
            &&& progress.bytes_done == 0
            &&& progress.bytes_total is None
        }
}

/// The file at this place was fetched, and what was fetched was copied to its
/// own name below the destination directory.
pub open spec fn file_came<H, W, D, P>(
    hub: H,
    files: Seq<&str>,
    i: int,
    dest_dir: PathBuf,
    fetch: D,
    copy: P,
    before: W,
    after: W,
) -> bool where
    D: Fn(&H, &str, CallbackProgress, W) -> (Result<PathBuf, String>, W),
    P: Fn(&PathBuf, &PathBuf, W) -> (Result<(), String>, W),
 {
    exists|source: PathBuf, fetched: W|
        {
            &&& #[trigger] fetch_gave::<H, W, D>(hub, files, i, fetch, before, Ok(source), fetched)
            &&& call_ensures(
                copy,
                (&source, &crate::outside::path_joined(dest_dir, files[i]@), fetched),
                (Ok(()), after),
            )
        }
}

/// The first `n` files came, one after the other, with these hands in
/// between.
pub open spec fn files_came<H, W, D, P>(
    hub: H,
    files: Seq<&str>,
    n: nat,
    dest_dir: PathBuf,
    fetch: D,
    copy: P,
    hands: Seq<W>,
) -> bool where
    D: Fn(&H, &str, CallbackProgress, W) -> (Result<PathBuf, String>, W),
    P: Fn(&PathBuf, &PathBuf, W) -> (Result<(), String>, W),
 {
    &&& hands.len() == n + 1
    &&& forall|i: int|
        0 <= i < n ==> #[trigger] file_came::<H, W, D, P>(
            hub,
            files,
            i,
            dest_dir,
            fetch,
            copy,
            hands[i],
            hands[i + 1],
        )
}

/// The file at this place was not delivered, or not copied, and that is the
/// error.
pub open spec fn file_did_not_come<H, W, D, P>(
    hub: H,
    files: Seq<&str>,
    i: int,
    dest_dir: PathBuf,
    fetch: D,
    copy: P,
    before: W,
    error: ErrorView,
    after: W,
) -> bool where
    D: Fn(&H, &str, CallbackProgress, W) -> (Result<PathBuf, String>, W),
    P: Fn(&PathBuf, &PathBuf, W) -> (Result<(), String>, W),
 {
    let dest = crate::outside::path_joined(dest_dir, files[i]@);
    ||| exists|cause: String|
        {
            &&& #[trigger] fetch_gave::<H, W, D>(hub, files, i, fetch, before, Err(cause), after)
            &&& error == ErrorView::Backend(
                "hf-hub download of "@ + files[i]@ + " failed: "@ + cause@,
            )
        }
    ||| exists|source: PathBuf, fetched: W, cause: String|
        {
            &&& #[trigger] fetch_gave::<H, W, D>(hub, files, i, fetch, before, Ok(source), fetched)
            &&& #[trigger] call_ensures(copy, (&source, &dest, fetched), (Err(cause), after))
            &&& error == ErrorView::Backend(
                "copying "@ + crate::outside::path_shown(source) + " to "@
                    + crate::outside::path_shown(dest) + ": "@ + cause@,
            )
        }
}

/// What a batch does and gives on an opened repo: the files come one after
/// the other, all of them or those before the first one that does not.
pub open spec fn batch_ran<H, W, D, P>(
    hub: H,
    files: Seq<&str>,
    dest_dir: PathBuf,
    fetch: D,
    copy: P,
    ready: W,
    result: Result<(), AsrError>,
    now: W,
) -> bool where
    D: Fn(&H, &str, CallbackProgress, W) -> (Result<PathBuf, String>, W),
    P: Fn(&PathBuf, &PathBuf, W) -> (Result<(), String>, W),
 {
    exists|n: nat, hands: Seq<W>|
        {
            &&& n <= files.len()
            &&& #[trigger] files_came::<H, W, D, P>(hub, files, n, dest_dir, fetch, copy, hands)
            &&& hands[0] == ready
            &&& match result {
                Ok(_) => n == files.len() && hands.last() == now,
                Err(error) => n < files.len() && file_did_not_come::<H, W, D, P>(
                    hub,
                    files,
                    n as int,
                    dest_dir,
                    fetch,
                    copy,
                    hands.last(),
                    error@,
                    now,
                ),
            }
        }
}

/// What a download does and gives: the directory is made, then the repo is
/// opened, then the batch runs; the first of these that fails is the error,
/// and the last thing done.
pub open spec fn download_ran<H, W, M, C, D, P>(
    repo_id: &str,
    files: Seq<&str>,
    dest_dir: PathBuf,
    make_dir: M,
    connect: C,
    fetch: D,
    copy: P,
    start: W,
    result: Result<(), AsrError>,
    now: W,
) -> bool where
    M: Fn(&PathBuf, W) -> (Result<(), String>, W),
    C: Fn(&str, W) -> (Result<H, String>, W),
    D: Fn(&H, &str, CallbackProgress, W) -> (Result<PathBuf, String>, W),
    P: Fn(&PathBuf, &PathBuf, W) -> (Result<(), String>, W),
 {
    exists|made: Result<(), String>, after: W|
        {
            &&& #[trigger] call_ensures(make_dir, (&dest_dir, start), (made, after))
            &&& made matches Err(cause) ==> now == after && (result matches Err(error) && error@
                == ErrorView::Backend(
                "creating model directory "@ + crate::outside::path_shown(dest_dir) + ": "@
                    + cause@,
            ))
            &&& made is Ok ==> exists|answer: Result<H, String>, ready: W|
                {
                    &&& #[trigger] call_ensures(connect, (repo_id, after), (answer, ready))
                    &&& answer matches Err(cause) ==> now == ready && (result matches Err(error)
                        && error@ == ErrorView::Backend("hf-hub init failed: "@ + cause@))
                    &&& answer matches Ok(hub) ==> batch_ran::<H, W, D, P>(
                        hub,
                        files,
                        dest_dir,
                        fetch,
                        copy,
                        ready,
                        result,
                        now,
                    )
                }
        }
}

proof fn lemma_arrivals_came<H, W, D, P>(
    hub: H,
    files: Seq<&str>,
    n: nat,
    dest_dir: PathBuf,
    fetch: D,
    copy: P,
    start: W,
    now: W,
) -> (hands: Seq<W>) where
    D: Fn(&H, &str, CallbackProgress, W) -> (Result<PathBuf, String>, W),
    P: Fn(&PathBuf, &PathBuf, W) -> (Result<(), String>, W),

    requires
        super::batch::files_arrived::<H, W, D, P>(
            hub,
            files,
            n,
            dest_dir,
            fetch,
            copy,
            start,
            now,
        ),
    ensures
        files_came::<H, W, D, P>(hub, files, n, dest_dir, fetch, copy, hands),
        hands[0] == start,
        hands.last() == now,
    decreases n,
{
    if n == 0 {
        seq![start]
    } else {
        let before = choose|before: W|
            {
                &&& super::batch::files_arrived::<H, W, D, P>(
                    hub,
                    files,
                    (n - 1) as nat,
                    dest_dir,
                    fetch,
                    copy,
                    start,
                    before,
                )
                &&& #[trigger] super::batch::file_arrived::<H, W, D, P>(
                    hub,
                    files,
                    n - 1,
                    dest_dir,
                    fetch,
                    copy,
                    before,
                    now,
                )
            };
        let (source, fetched) = choose|source: PathBuf, fetched: W|
            {
                &&& #[trigger] super::batch::file_fetched::<H, W, D>(
                    hub,
                    files,
                    n - 1,
                    fetch,
                    before,
                    Ok(source),
                    fetched,
                )
                &&& call_ensures(
                    copy,
                    (&source, &crate::outside::path_joined(dest_dir, files[n - 1]@), fetched),
                    (Ok(()), now),
                )
            };
        assert(fetch_gave::<H, W, D>(hub, files, n - 1, fetch, before, Ok(source), fetched));
        assert(file_came::<H, W, D, P>(hub, files, n - 1, dest_dir, fetch, copy, before, now));
        let earlier = lemma_arrivals_came::<H, W, D, P>(
            hub,
            files,
            (n - 1) as nat,
            dest_dir,
            fetch,
            copy,
            start,
            before,
        );
        let hands = earlier.push(now);
        assert forall|i: int| 0 <= i < n implies #[trigger] file_came::<H, W, D, P>(
            hub,
            files,
            i,
            dest_dir,
            fetch,
            copy,
            hands[i],
            hands[i + 1],
        ) by {
            if i < n - 1 {
                assert(file_came::<H, W, D, P>(
                    hub,
                    files,
                    i,
                    dest_dir,
                    fetch,
                    copy,
                    earlier[i],
                    earlier[i + 1],
                ));
            }
        }
        hands
    }
}

proof fn lemma_batch_ran<H, W, D, P>(
    hub: H,
    files: Seq<&str>,
    dest_dir: PathBuf,
    fetch: D,
    copy: P,
    ready: W,
    result: Result<(), AsrError>,
    now: W,
) where
    D: Fn(&H, &str, CallbackProgress, W) -> (Result<PathBuf, String>, W),
    P: Fn(&PathBuf, &PathBuf, W) -> (Result<(), String>, W),

    requires
        super::batch::batch_came_to::<H, W, D, P>(
            hub,
            files,
            dest_dir,
            fetch,
            copy,
            ready,
            result,
            now,
        ),
    ensures
        batch_ran::<H, W, D, P>(hub, files, dest_dir, fetch, copy, ready, result, now),
{
    match result {
        Ok(_) => {
            let hands = lemma_arrivals_came::<H, W, D, P>(
                hub,
                files,
                files.len(),
                dest_dir,
                fetch,
                copy,
                ready,
                now,
            );
        },
        Err(error) => {
            let (n, before) = choose|n: nat, before: W|
                {
                    &&& n < files.len()
                    &&& #[trigger] super::batch::files_arrived::<H, W, D, P>(
                        hub,
                        files,
                        n,
                        dest_dir,
                        fetch,
                        copy,
                        ready,
                        before,
                    )
                    &&& super::batch::file_failed::<H, W, D, P>(
                        hub,
                        files,
                        n as int,
                        dest_dir,
                        fetch,
                        copy,
                        before,
                        error@,
                        now,
                    )
                };
            let hands = lemma_arrivals_came::<H, W, D, P>(
                hub,
                files,
                n,
                dest_dir,
                fetch,
                copy,
                ready,
                before,
            );
            let i = n as int;
            let dest = crate::outside::path_joined(dest_dir, files[i]@);
            if exists|cause: String|
                {
                    &&& #[trigger] super::batch::file_fetched::<H, W, D>(
                        hub,
                        files,
                        i,
                        fetch,
                        before,
                        Err(cause),
                        now,
                    )
                    &&& error@ == super::batch::no_file(files[i]@, cause@)
                } {
                let cause = choose|cause: String|
                    {
                        &&& #[trigger] super::batch::file_fetched::<H, W, D>(
                            hub,
                            files,
                            i,
                            fetch,
                            before,
                            Err(cause),
                            now,
                        )
                        &&& error@ == super::batch::no_file(files[i]@, cause@)
                    };
                assert(fetch_gave::<H, W, D>(hub, files, i, fetch, before, Err(cause), now));
            } else {
                let (source, fetched, cause) = choose|
                    source: PathBuf,
                    fetched: W,
                    cause: String,
                |
                    {
                        &&& #[trigger] super::batch::file_fetched::<H, W, D>(
                            hub,
                            files,
                            i,
                            fetch,
                            before,
                            Ok(source),
                            fetched,
                        )
                        &&& #[trigger] call_ensures(
                            copy,
                            (&source, &dest, fetched),
                            (Err(cause), now),
                        )
                        &&& error@ == super::batch::no_copy(source, dest, cause@)
                    };
                assert(fetch_gave::<H, W, D>(
                    hub,
                    files,
                    i,
                    fetch,
                    before,
                    Ok(source),
                    fetched,
                ));
            }
            assert(file_did_not_come::<H, W, D, P>(
                hub,
                files,
                i,
                dest_dir,
                fetch,
                copy,
                before,
                error@,
                now,
            ));
        },
    }
}

/// A download makes the directory, opens the repo, and then fetches and
/// copies the files, each once and in order, and stops at the first failure,
/// which is its error.
pub proof fn law_download_runs_in_order<H, W, M, C, D, P>(
    repo_id: &str,
    files: Seq<&str>,
    dest_dir: PathBuf,
    make_dir: M,
    connect: C,
    fetch: D,
    copy: P,
    start: W,
    result: Result<(), AsrError>,
    now: W,
) where
    M: Fn(&PathBuf, W) -> (Result<(), String>, W),
    C: Fn(&str, W) -> (Result<H, String>, W),
    D: Fn(&H, &str, CallbackProgress, W) -> (Result<PathBuf, String>, W),
    P: Fn(&PathBuf, &PathBuf, W) -> (Result<(), String>, W),

    requires
        super::batch::download_came_to::<H, W, M, C, D, P>(
            repo_id,
            files,
            dest_dir,
            make_dir,
            connect,
            fetch,
            copy,
            start,
            result,
            now,
        ),
    ensures
        download_ran::<H, W, M, C, D, P>(
            repo_id,
            files,
            dest_dir,
            make_dir,
            connect,
            fetch,
            copy,
            start,
            result,
            now,
        ),
{
    if exists|cause: String|
        {
            &&& #[trigger] call_ensures(make_dir, (&dest_dir, start), (Err(cause), now))
            &&& result matches Err(error) && error@ == super::batch::no_directory(dest_dir, cause@)
        } {
    } else if exists|made: W, cause: String|
        {
            &&& #[trigger] call_ensures(make_dir, (&dest_dir, start), (Ok(()), made))
            &&& #[trigger] call_ensures(connect, (repo_id, made), (Err(cause), now))
            &&& result matches Err(error) && error@ == super::batch::no_hub(cause@)
        } {
    } else {
        let (hub, ready) = choose|hub: H, ready: W|
            {
                &&& #[trigger] super::batch::opened::<H, W, M, C>(
                    repo_id,
                    dest_dir,
                    make_dir,
                    connect,
                    start,
                    hub,
                    ready,
                )
                &&& super::batch::batch_came_to::<H, W, D, P>(
                    hub,
                    files,
                    dest_dir,
                    fetch,
                    copy,
                    ready,
                    result,
                    now,
                )
            };
        let made = choose|made: W|
            {
                &&& #[trigger] call_ensures(make_dir, (&dest_dir, start), (Ok(()), made))
                &&& call_ensures(connect, (repo_id, made), (Ok(hub), ready))
            };
        lemma_batch_ran::<H, W, D, P>(hub, files, dest_dir, fetch, copy, ready, result, now);
    }
}

/// Closures that are ready for every call are ready for a download: nothing
/// else is asked of them.
pub proof fn law_ready_closures_download<H, W, M, C, D, P>(
    repo_id: &str,
    files: Seq<&str>,
    dest_dir: PathBuf,
    make_dir: M,
    connect: C,
    fetch: D,
    copy: P,
    start: W,
) where
    M: Fn(&PathBuf, W) -> (Result<(), String>, W),
    C: Fn(&str, W) -> (Result<H, String>, W),
    D: Fn(&H, &str, CallbackProgress, W) -> (Result<PathBuf, String>, W),
    P: Fn(&PathBuf, &PathBuf, W) -> (Result<(), String>, W),

    requires
        forall|dir: PathBuf, hand: W| #[trigger] call_requires(make_dir, (&dir, hand)),
        forall|repo: &str, hand: W| #[trigger] call_requires(connect, (repo, hand)),
        forall|hub: H, name: &str, progress: CallbackProgress, hand: W| #[trigger]
            call_requires(fetch, (&hub, name, progress, hand)),
        forall|source: PathBuf, dest: PathBuf, hand: W| #[trigger]
            call_requires(copy, (&source, &dest, hand)),
    ensures
        super::batch::download_is_admitted::<H, W, M, C, D, P>(
            repo_id,
            files,
            dest_dir,
            make_dir,
            connect,
            fetch,
            copy,
            start,
        ),
{
}

/// The cache has a root as soon as one of the three variables is set:
/// `HF_HOME` decides where it is set, whatever the others are; else `HOME`
/// does, whatever `USERPROFILE` is; else `USERPROFILE`.
pub proof fn law_cache_root_follows_the_variables(env: CacheEnv)
    ensures
        super::cache::cache_root(env) is Some <==> env.hf_home is Some || env.home is Some
            || env.user_profile is Some,
        env.hf_home matches Some(base) ==> super::cache::cache_root(env) == Some(
            crate::outside::path_joined(base, "hub"@),
        ),
        env.hf_home is None ==> (env.home matches Some(base) ==> super::cache::cache_root(env)
            == Some(
            crate::outside::path_joined(
                crate::outside::path_joined(
                    crate::outside::path_joined(base, ".cache"@),
                    "huggingface"@,
                ),
                "hub"@,
            ),
        )),
        env.hf_home is None && env.home is None ==> (env.user_profile matches Some(base)
            ==> super::cache::cache_root(env) == Some(
            crate::outside::path_joined(
                crate::outside::path_joined(
                    crate::outside::path_joined(base, ".cache"@),
                    "huggingface"@,
                ),
                "hub"@,
            ),
        )),
{
}

/// A repo is looked up in the `snapshots` directory of its own folder below
/// the root. The folder of an id is told by the ids that make it up: one
/// without a slash stands for itself, and a slash becomes two dashes.
pub proof fn law_repos_have_their_folder(root: PathBuf, owner: Seq<char>, rest: Seq<char>)
    requires
        !owner.contains('/'),
    ensures
        super::cache::snapshots_of(root, rest) == crate::outside::path_joined(
            crate::outside::path_joined(root, super::cache::repo_folder(rest)),
            "snapshots"@,
        ),
        super::cache::repo_folder(owner) == "models--"@ + owner,
        super::cache::repo_folder(owner + seq!['/'] + rest) == "models--"@ + owner + "--"@
            + super::cache::repo_folder(rest).skip(8),
{
    reveal_strlit("models--");
    crate::text::lemma_replaced_without_match(owner, '/', "--"@);
    crate::text::law_replace_goes_match_by_match(owner, rest, '/', "--"@);
    assert(("models--"@ + crate::text::replaced(rest, '/', "--"@)).skip(8)
        == crate::text::replaced(rest, '/', "--"@));
}

/// A listing shows a complete snapshot exactly where it could be read and one
/// of its entries is a directory with every one of the files.
pub proof fn law_one_directory_must_hold_every_file(
    snapshots: Option<Vec<Snapshot>>,
    files: Seq<&str>,
)
    ensures
        super::cache::shows_complete_snapshot(
            super::cache::listing(snapshots),
            super::cache::texts(files),
        ) <==> (snapshots matches Some(entries) && exists|i: int|
            {
                &&& 0 <= i < entries@.len()
                &&& (#[trigger] entries@[i]).is_dir
                &&& forall|j: int|
                    0 <= j < files.len() ==> has_name(entries@[i].present@, (#[trigger] files[j])@)
            }),
{
    let texts = super::cache::texts(files);
    if let Some(entries) = snapshots {
        let views = super::cache::listing(snapshots)->0;
        assert forall|i: int| 0 <= i < entries@.len() implies (#[trigger] views[i]).is_complete(
            texts,
        ) == (entries@[i].is_dir && forall|j: int|
            0 <= j < files.len() ==> has_name(entries@[i].present@, (#[trigger] files[j])@)) by {
            let present = views[i].present;
            assert forall|j: int| 0 <= j < files.len() implies present.contains(
                #[trigger] texts[j],
            ) == has_name(entries@[i].present@, files[j]@) by {
                if present.contains(texts[j]) {
                    let k = choose|k: int| 0 <= k < present.len() && present[k] == texts[j];
                    assert(entries@[i].present@[k]@ == files[j]@);
                }
                if has_name(entries@[i].present@, files[j]@) {
                    let k = choose|k: int|
                        0 <= k < entries@[i].present@.len() && (#[trigger] entries@[i].present@[k])@
                            == files[j]@;
                    assert(present[k] == texts[j]);
                }
            }
            if views[i].is_complete(texts) {
                assert forall|j: int| 0 <= j < files.len() implies has_name(
                    entries@[i].present@,
                    (#[trigger] files[j])@,
                ) by {
                    assert(present.contains(texts[j]));
                }
            }
            if entries@[i].is_dir && forall|j: int|
                0 <= j < files.len() ==> has_name(entries@[i].present@, (#[trigger] files[j])@) {
                assert forall|j: int| 0 <= j < texts.len() implies present.contains(
                    #[trigger] texts[j],
                ) by {
                    assert(has_name(entries@[i].present@, files[j]@));
                }
            }
        }
        if super::cache::some_snapshot_is_complete(views, texts) {
            let i = choose|i: int|
                0 <= i < views.len() && (#[trigger] views[i]).is_complete(texts);
            assert(entries@[i].is_dir);
        }
        if exists|i: int|
            {
                &&& 0 <= i < entries@.len()
                &&& (#[trigger] entries@[i]).is_dir
                &&& forall|j: int|
                    0 <= j < files.len() ==> has_name(entries@[i].present@, (#[trigger] files[j])@)
            } {
            let i = choose|i: int|
                {
                    &&& 0 <= i < entries@.len()
                    &&& (#[trigger] entries@[i]).is_dir
                    &&& forall|j: int|
                        0 <= j < files.len() ==> has_name(
                            entries@[i].present@,
                            (#[trigger] files[j])@,
                        )
                };
            assert(views[i].is_complete(texts));
        }
    }
}

/// Whether a name is in a list.
pub open spec fn has_name(names: Seq<String>, name: Seq<char>) -> bool {
    exists|k: int| 0 <= k < names.len() && (#[trigger] names[k])@ == name
}

/// A look into the cache answers no where there is no root; else it lists the
/// repo's `snapshots` directory and answers as the listing does.
pub proof fn law_probe_answers_as_the_listing<L>(
    repo_id: Seq<char>,
    files: &[&str],
    env: CacheEnv,
    list: L,
    cached: bool,
) where L: Fn(&PathBuf, &[&str]) -> Option<Vec<Snapshot>>
    requires
        super::cache::probe_gave(repo_id, files, env, list, cached),
    ensures
        env.hf_home is None && env.home is None && env.user_profile is None ==> !cached,
        super::cache::cache_root(env) matches Some(root) ==> exists|
            snapshots: Option<Vec<Snapshot>>,
        |
            {
                &&& #[trigger] call_ensures(
                    list,
                    (&super::cache::snapshots_of(root, repo_id), files),
                    snapshots,
                )
                &&& cached == super::cache::shows_complete_snapshot(
                    super::cache::listing(snapshots),
                    super::cache::texts(files@),
                )
            },
{
}

/// A list of names says, one for one, what its names say.
pub proof fn law_lists_say_their_names(names: Seq<&str>)
    ensures
        super::cache::texts(names).len() == names.len(),
        forall|i: int|
            0 <= i < names.len() ==> #[trigger] super::cache::texts(names)[i] == names[i]@,
{
}

} // verus!
