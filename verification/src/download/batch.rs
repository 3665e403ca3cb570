//! Downloading a list of files, one after the other.
//!
//! A download acts through four closures. Each of them takes the caller's
//! hand on the outside world, a value of a type `W` of the caller's choosing
//! (the callback that progress goes to, for one), and gives it back. Nothing
//! else can make such a value, so the one that comes back from a download has
//! been through exactly the calls that the contract strings together, each
//! once and in that order.

use std::path::PathBuf;
use vstd::prelude::*;

use super::progress::CallbackProgress;
use crate::error::ErrorView;
use crate::outside::{path_display, path_join};
use crate::AsrError;

verus! {

/// The error where the destination directory cannot be made.
pub open spec fn no_directory(dest_dir: PathBuf, cause: Seq<char>) -> ErrorView {
    ErrorView::Backend(
        "creating model directory "@ + crate::outside::path_shown(dest_dir) + ": "@ + cause,
    )
}

/// The error where the hub cannot be reached at all.
pub open spec fn no_hub(cause: Seq<char>) -> ErrorView {
    ErrorView::Backend("hf-hub init failed: "@ + cause)
}

/// The error where the hub does not deliver a file.
pub open spec fn no_file(file: Seq<char>, cause: Seq<char>) -> ErrorView {
    ErrorView::Backend("hf-hub download of "@ + file + " failed: "@ + cause)
}

/// The error where a delivered file cannot be copied.
pub open spec fn no_copy(source: PathBuf, dest: PathBuf, cause: Seq<char>) -> ErrorView {
    ErrorView::Backend(
        "copying "@ + crate::outside::path_shown(source) + " to "@ + crate::outside::path_shown(
            dest,
        ) + ": "@ + cause,
    )
}

/// The directory was made, then the repo was opened: this is the hub, and
/// `now` is where that leaves the outside.
pub open spec fn opened<H, W, M, C>(
    repo_id: &str,
    dest_dir: PathBuf,
    make_dir: M,
    connect: C,
    start: W,
    hub: H,
    now: W,
) -> bool where
    M: Fn(&PathBuf, W) -> (Result<(), String>, W),
    C: Fn(&str, W) -> (Result<H, String>, W),
 {
    exists|made: W|
        {
            &&& #[trigger] call_ensures(make_dir, (&dest_dir, start), (Ok(()), made))
            &&& call_ensures(connect, (repo_id, made), (Ok(hub), now))
        }
}

/// The file at `index` was fetched, under fresh progress, and this came of
/// it.
pub open spec fn file_fetched<H, W, D>(
    hub: H,
    files: Seq<&str>,
    index: int,
    fetch: D,
    before: W,
    outcome: Result<PathBuf, String>,
    now: W,
) -> bool where D: Fn(&H, &str, CallbackProgress, W) -> (Result<PathBuf, String>, W) {
    exists|progress: CallbackProgress|
        {
            &&& #[trigger] call_ensures(
                fetch,
                (&hub, files[index], progress, before),
                (outcome, now),
            )
            &&& progress.is_fresh_for(files, index)
        }
}

/// The file at `index` was fetched, then copied to its name in the
/// destination directory.
pub open spec fn file_arrived<H, W, D, P>(
    hub: H,
    files: Seq<&str>,
    index: int,
    dest_dir: PathBuf,
    fetch: D,
    copy: P,
    before: W,
    now: W,
) -> bool where
    D: Fn(&H, &str, CallbackProgress, W) -> (Result<PathBuf, String>, W),
    P: Fn(&PathBuf, &PathBuf, W) -> (Result<(), String>, W),
 {
    exists|source: PathBuf, fetched: W|
        {
            &&& #[trigger] file_fetched::<H, W, D>(
                hub,
                files,
                index,
                fetch,
                before,
                Ok(source),
                fetched,
            )
            &&& call_ensures(
                copy,
                (&source, &crate::outside::path_joined(dest_dir, files[index]@), fetched),
                (Ok(()), now),
            )
        }
}

/// The first `n` files arrived, one after the other, and nothing else was
/// done.
pub open spec fn files_arrived<H, W, D, P>(
    hub: H,
    files: Seq<&str>,
    n: nat,
    dest_dir: PathBuf,
    fetch: D,
    copy: P,
    start: W,
    now: W,
) -> bool where
    D: Fn(&H, &str, CallbackProgress, W) -> (Result<PathBuf, String>, W),
    P: Fn(&PathBuf, &PathBuf, W) -> (Result<(), String>, W),

    decreases n,
{
    if n == 0 {
        now == start
    } else {
        exists|before: W|
            {
                &&& files_arrived::<H, W, D, P>(
                    hub,
                    files,
                    (n - 1) as nat,
                    dest_dir,
                    fetch,
                    copy,
                    start,
                    before,
                )
                &&& #[trigger] file_arrived::<H, W, D, P>(
                    hub,
                    files,
                    n - 1,
                    dest_dir,
                    fetch,
                    copy,
                    before,
                    now,
                )
            }
    }
}

/// The file at `index` did not arrive, for this reason: it was not
/// delivered, or not copied.
pub open spec fn file_failed<H, W, D, P>(
    hub: H,
    files: Seq<&str>,
    index: int,
    dest_dir: PathBuf,
    fetch: D,
    copy: P,
    before: W,
    error: ErrorView,
    now: W,
) -> bool where
    D: Fn(&H, &str, CallbackProgress, W) -> (Result<PathBuf, String>, W),
    P: Fn(&PathBuf, &PathBuf, W) -> (Result<(), String>, W),
 {
    let dest = crate::outside::path_joined(dest_dir, files[index]@);
    ||| exists|cause: String|
        {
            &&& #[trigger] file_fetched::<H, W, D>(
                hub,
                files,
                index,
                fetch,
                before,
                Err(cause),
                now,
            )
            &&& error == no_file(files[index]@, cause@)
        }
    ||| exists|source: PathBuf, fetched: W, cause: String|
        {
            &&& #[trigger] file_fetched::<H, W, D>(
                hub,
                files,
                index,
                fetch,
                before,
                Ok(source),
                fetched,
            )
            &&& #[trigger] call_ensures(copy, (&source, &dest, fetched), (Err(cause), now))
            &&& error == no_copy(source, dest, cause@)
        }
}

/// What a batch comes to once the hub is there: every file arrived, or all
/// before some file did, and the reason is that file's.
pub open spec fn batch_came_to<H, W, D, P>(
    hub: H,
    files: Seq<&str>,
    dest_dir: PathBuf,
    fetch: D,
    copy: P,
    start: W,
    result: Result<(), AsrError>,
    now: W,
) -> bool where
    D: Fn(&H, &str, CallbackProgress, W) -> (Result<PathBuf, String>, W),
    P: Fn(&PathBuf, &PathBuf, W) -> (Result<(), String>, W),
 {
    match result {
        Ok(_) => files_arrived::<H, W, D, P>(
            hub,
            files,
            files.len(),
            dest_dir,
            fetch,
            copy,
            start,
            now,
        ),
        Err(error) => exists|n: nat, before: W|
            {
                &&& n < files.len()
                &&& #[trigger] files_arrived::<H, W, D, P>(
                    hub,
                    files,
                    n,
                    dest_dir,
                    fetch,
                    copy,
                    start,
                    before,
                )
                &&& file_failed::<H, W, D, P>(
                    hub,
                    files,
                    n as int,
                    dest_dir,
                    fetch,
                    copy,
                    before,
                    error@,
                    now,
                )
            },
    }
}

/// What a download comes to: the first thing that goes wrong decides, and
/// nothing is done after it.
pub open spec fn download_came_to<H, W, M, C, D, P>(
    repo_id: &str,
    files: Seq<&str>,
    dest_dir: PathBuf,
    make_dir: M,
    connect: C,
    fetch: D,
    copy: P,
    start: W,
    result: Result<(), AsrError>,
    now: W,
) -> bool where
    M: Fn(&PathBuf, W) -> (Result<(), String>, W),
    C: Fn(&str, W) -> (Result<H, String>, W),
    D: Fn(&H, &str, CallbackProgress, W) -> (Result<PathBuf, String>, W),
    P: Fn(&PathBuf, &PathBuf, W) -> (Result<(), String>, W),
 {
    ||| exists|cause: String|
        {
            &&& #[trigger] call_ensures(make_dir, (&dest_dir, start), (Err(cause), now))
            &&& result matches Err(error) && error@ == no_directory(dest_dir, cause@)
        }
    ||| exists|made: W, cause: String|
        {
            &&& #[trigger] call_ensures(make_dir, (&dest_dir, start), (Ok(()), made))
            &&& #[trigger] call_ensures(connect, (repo_id, made), (Err(cause), now))
            &&& result matches Err(error) && error@ == no_hub(cause@)
        }
    ||| exists|hub: H, ready: W|
        {
            &&& #[trigger] opened::<H, W, M, C>(
                repo_id,
                dest_dir,
                make_dir,
                connect,
                start,
                hub,
                ready,
            )
            &&& batch_came_to::<H, W, D, P>(
                hub,
                files,
                dest_dir,
                fetch,
                copy,
                ready,
                result,
                now,
            )
        }
}

/// The turn of the file at `index` has come: the directory was made, the
/// repo was opened, and all files before it arrived.
pub open spec fn turn_has_come<H, W, M, C, D, P>(
    repo_id: &str,
    files: Seq<&str>,
    index: nat,
    dest_dir: PathBuf,
    make_dir: M,
    connect: C,
    fetch: D,
    copy: P,
    start: W,
    hub: H,
    now: W,
) -> bool where
    M: Fn(&PathBuf, W) -> (Result<(), String>, W),
    C: Fn(&str, W) -> (Result<H, String>, W),
    D: Fn(&H, &str, CallbackProgress, W) -> (Result<PathBuf, String>, W),
    P: Fn(&PathBuf, &PathBuf, W) -> (Result<(), String>, W),
 {
    &&& index < files.len()
    &&& exists|ready: W|
        {
            &&& #[trigger] opened::<H, W, M, C>(
                repo_id,
                dest_dir,
                make_dir,
                connect,
                start,
                hub,
                ready,
            )
            &&& files_arrived::<H, W, D, P>(
                hub,
                files,
                index,
                dest_dir,
                fetch,
                copy,
                ready,
                now,
            )
        }
}

/// What a download may do: make the directory; once it is made, open the
/// repo; fetch a file when its turn has come, under fresh progress; and copy
/// what was fetched for it to its own name.
pub open spec fn download_is_admitted<H, W, M, C, D, P>(
    repo_id: &str,
    files: Seq<&str>,
    dest_dir: PathBuf,
    make_dir: M,
    connect: C,
    fetch: D,
    copy: P,
    start: W,
) -> bool where
    M: Fn(&PathBuf, W) -> (Result<(), String>, W),
    C: Fn(&str, W) -> (Result<H, String>, W),
    D: Fn(&H, &str, CallbackProgress, W) -> (Result<PathBuf, String>, W),
    P: Fn(&PathBuf, &PathBuf, W) -> (Result<(), String>, W),
 {
    &&& call_requires(make_dir, (&dest_dir, start))
    &&& forall|made: W| #[trigger]
        call_ensures(make_dir, (&dest_dir, start), (Ok(()), made)) ==> call_requires(
            connect,
            (repo_id, made),
        )
    &&& forall|index: nat, hub: H, now: W, progress: CallbackProgress|
        {
            &&& #[trigger] turn_has_come::<H, W, M, C, D, P>(
                repo_id,
                files,
                index,
                dest_dir,
                make_dir,
                connect,
                fetch,
                copy,
                start,
                hub,
                now,
            )
            &&& #[trigger] progress.is_fresh_for(files, index as int)
        } ==> call_requires(fetch, (&hub, files[index as int], progress, now))
    &&& forall|index: nat, hub: H, before: W, source: PathBuf, now: W|
        {
            &&& #[trigger] turn_has_come::<H, W, M, C, D, P>(
                repo_id,
                files,
                index,
                dest_dir,
                make_dir,
                connect,
                fetch,
                copy,
                start,
                hub,
                before,
            )
            &&& #[trigger] file_fetched::<H, W, D>(
                hub,
                files,
                index as int,
                fetch,
                before,
                Ok(source),
                now,
            )
        } ==> call_requires(
            copy,
            (&source, &crate::outside::path_joined(dest_dir, files[index as int]@), now),
        )
}

/// Download every file in `files` from `repo_id` on HuggingFace Hub into
/// `dest_dir`, reporting byte progress as it goes.
///
/// On success every filename in `files` has been fetched and copied, and the
/// directory is directly loadable by a backend that consumes the files from
/// a flat directory. The first failure ends the batch.
///
/// `make_dir` makes the destination directory; `connect` opens the repo;
/// `fetch` downloads one file, reporting on it through the
/// [`CallbackProgress`] it is given; `copy` copies a fetched file to a path,
/// overwriting what is there, so a partial previous run retries cleanly. Each
/// takes `outside` and gives it back, and so does the download.
pub fn download_files_with_progress<H, W, M, C, D, P>(
    repo_id: &str,
    files: &[&str],
    dest_dir: &PathBuf,
    make_dir: M,
    connect: C,
    fetch: D,
    copy: P,
    outside: W,
) -> (outcome: (Result<(), AsrError>, W))
    where
        M: Fn(&PathBuf, W) -> (Result<(), String>, W),
        C: Fn(&str, W) -> (Result<H, String>, W),
        D: Fn(&H, &str, CallbackProgress, W) -> (Result<PathBuf, String>, W),
        P: Fn(&PathBuf, &PathBuf, W) -> (Result<(), String>, W),
    requires
        download_is_admitted::<H, W, M, C, D, P>(
            repo_id,
            files@,
            *dest_dir,
            make_dir,
            connect,
            fetch,
            copy,
            outside,
        ),
    ensures
        download_came_to::<H, W, M, C, D, P>(
            repo_id,
            files@,
            *dest_dir,
            make_dir,
            connect,
            fetch,
            copy,
            outside,
            outcome.0,
            outcome.1,
        ),
{
    let ghost start = outside;
    let (made, now) = make_dir(dest_dir, outside);
    match made {
        Ok(unit) => assert(unit == ()),
        Err(cause) => {
            let shown: String = path_display(dest_dir);
            let mut message: String = crate::text::join(
                "creating model directory ",
                shown.as_str(),
            );
            message.append(": ");
            message.append(cause.as_str());
            return (Err(AsrError::Backend(message)), now);
        },
    }
    let (answer, now) = connect(repo_id, now);
    let hub: H = match answer {
        Ok(hub) => hub,
        Err(cause) => {
            let message: String = crate::text::join("hf-hub init failed: ", cause.as_str());
            return (Err(AsrError::Backend(message)), now);
        },
    };
    let ghost ready = now;
    let mut hand: W = now;
    for idx in 0..files.len()
        invariant
            start == outside,
            download_is_admitted::<H, W, M, C, D, P>(
                repo_id,
                files@,
                *dest_dir,
                make_dir,
                connect,
                fetch,
                copy,
                start,
            ),
            opened::<H, W, M, C>(repo_id, *dest_dir, make_dir, connect, start, hub, ready),
            files_arrived::<H, W, D, P>(
                hub,
                files@,
                idx as nat,
                *dest_dir,
                fetch,
                copy,
                ready,
                hand,
            ),
    {
        let ghost before = hand;
        let name: &str = files[idx];
        let progress: CallbackProgress = CallbackProgress {
            file: name.to_string(),
            file_index: idx + 1,
            file_count: files.len(),
            bytes_done: 0,
            bytes_total: None,
        };
        assert(turn_has_come::<H, W, M, C, D, P>(
            repo_id,
            files@,
            idx as nat,
            *dest_dir,
            make_dir,
            connect,
            fetch,
            copy,
            start,
            hub,
            before,
        ));
        assert(progress.is_fresh_for(files@, idx as int));
        let (fetched, now) = fetch(&hub, name, progress, hand);
        assert(file_fetched::<H, W, D>(
            hub,
            files@,
            idx as int,
            fetch,
            before,
            fetched,
            now,
        ));
        let source: PathBuf = match fetched {
            Ok(source) => source,
            Err(cause) => {
                let mut message: String = crate::text::join("hf-hub download of ", name);
                message.append(" failed: ");
                message.append(cause.as_str());
                let error: AsrError = AsrError::Backend(message);
                return (Err(error), now);
            },
        };
        let dest: PathBuf = path_join(dest_dir, name);
        let (copied, now) = copy(&source, &dest, now);
        match copied {
            Ok(unit) => assert(unit == ()),
            Err(cause) => {
                let from: String = path_display(&source);
                let to: String = path_display(&dest);
                let mut message: String = crate::text::join("copying ", from.as_str());
                message.append(" to ");
                message.append(to.as_str());
                message.append(": ");
                message.append(cause.as_str());
                let error: AsrError = AsrError::Backend(message);
                return (Err(error), now);
            },
        }
        hand = now;
        assert(file_arrived::<H, W, D, P>(
            hub,
            files@,
            ((idx + 1) as nat) - 1,
            *dest_dir,
            fetch,
            copy,
            before,
            hand,
        ));
    }
    (Ok(()), hand)
}

} // verus!
