//! Turning the hub's download notifications into progress reports.

use vstd::prelude::*;

verus! {

/// Byte-level progress for one file inside a multi-file download.
///
/// Fires at the start of each file (`bytes_done = 0`), repeatedly during
/// streaming as bytes arrive, and once on completion
/// (`bytes_done == bytes_total`).
#[derive(Debug, Clone)]
pub struct DownloadProgress {
    /// Filename inside the HuggingFace repo.
    pub file: String,
    /// 1-indexed position of `file` within the batch, paired with
    /// [`file_count`](Self::file_count) so a UI can render
    /// "file 2 of 4".
    pub file_index: usize,
    /// Total files in the batch.
    pub file_count: usize,
    /// Bytes downloaded so far for the current file. Resets per file.
    pub bytes_done: u64,
    /// Total bytes for the current file, reported by HuggingFace before
    /// streaming begins. `None` only before metadata is known.
    pub bytes_total: Option<u64>,
}

/// The progress of one file: turns the hub's `init` / `update` / `finish`
/// notifications into the [`DownloadProgress`] reports a caller sees.
#[derive(Debug)]
pub struct CallbackProgress {
    pub file: String,
    pub file_index: usize,
    pub file_count: usize,
    pub bytes_done: u64,
    pub bytes_total: Option<u64>,
}

/// The sum of two byte counts, or the largest count if it does not fit.
pub open spec fn saturating_sum(a: u64, b: u64) -> u64 {
    if a + b <= u64::MAX {
        (a + b) as u64
    } else {
        u64::MAX
    }
}

impl CallbackProgress {
    /// The report of the current state.
    pub open spec fn report(self) -> DownloadProgress {
        DownloadProgress {
            file: self.file,
            file_index: self.file_index,
            file_count: self.file_count,
            bytes_done: self.bytes_done,
            bytes_total: self.bytes_total,
        }
    }

    /// The state once the size of the file is known.
    pub open spec fn sized(self, size: u64) -> CallbackProgress {
        CallbackProgress { bytes_total: Some(size), bytes_done: 0, ..self }
    }

    /// The state once another chunk has arrived.
    pub open spec fn advanced(self, size: u64) -> CallbackProgress {
        CallbackProgress { bytes_done: saturating_sum(self.bytes_done, size), ..self }
    }

    /// Whether the bytes reported so far fall short of the file's size.
    pub open spec fn is_short(self) -> bool {
        self.bytes_total matches Some(total) && self.bytes_done < total
    }

    /// The state once the download is complete.
    pub open spec fn completed(self) -> CallbackProgress {
        if self.is_short() {
            CallbackProgress { bytes_done: self.bytes_total->0, ..self }
        } else {
            self
        }
    }

    /// The state before the first notification for the file at `index`.
    pub open spec fn is_fresh_for(self, files: Seq<&str>, index: int) -> bool {
        &&& self.file@ == files[index]@
        &&& self.file_index == index + 1
        &&& self.file_count == files.len()
        &&& self.bytes_done == 0
        &&& self.bytes_total is None
    }

    /// The report of the current state.
    pub fn emit(&self) -> (progress: DownloadProgress)
        ensures
            progress == self.report(),
    {
        DownloadProgress {
            file: self.file.clone(),
            file_index: self.file_index,
            file_count: self.file_count,
            bytes_done: self.bytes_done,
            bytes_total: self.bytes_total,
        }
    }

    /// The download starts: its size is known, nothing has arrived.
    pub fn init(&mut self, size: usize, _filename: &str) -> (progress: DownloadProgress)
        ensures
            *final(self) == old(self).sized(size as u64),
            progress == final(self).report(),
    {
        self.bytes_total = Some(size as u64);
        self.bytes_done = 0;
        self.emit()
    }

    /// A chunk of `size` bytes has arrived. The hub passes the chunk size,
    /// not the cumulative total.
    pub fn update(&mut self, size: usize) -> (progress: DownloadProgress)
        ensures
            *final(self) == old(self).advanced(size as u64),
            progress == final(self).report(),
    {
        self.bytes_done = self.bytes_done.saturating_add(size as u64);
        self.emit()
    }

    /// The download is complete. Makes sure the last report is the file's
    /// full size: the final `update` may have been short.
    pub fn finish(&mut self) -> (progress: Option<DownloadProgress>)
        ensures
            *final(self) == old(self).completed(),
            progress == if old(self).is_short() {
                Some(final(self).report())
            } else {
                None
            },
    {
        if let Some(total) = self.bytes_total {
            if self.bytes_done < total {
                self.bytes_done = total;
                return Some(self.emit());
            }
        }
        None
    }
}

/// The sum of these chunk sizes.
pub open spec fn total_size(chunks: Seq<usize>) -> nat
    decreases chunks.len(),
{
    if chunks.len() == 0 {
        0
    } else {
        total_size(chunks.drop_last()) + chunks.last() as nat
    }
}

impl CallbackProgress {
    /// The state once the size is known and these chunks have arrived.
    pub open spec fn streamed(self, size: usize, chunks: Seq<usize>) -> CallbackProgress
        decreases chunks.len(),
    {
        if chunks.len() == 0 {
            self.sized(size as u64)
        } else {
            self.streamed(size, chunks.drop_last()).advanced(chunks.last() as u64)
        }
    }

    /// The reports made meanwhile, oldest first.
    pub open spec fn stream_reports(self, size: usize, chunks: Seq<usize>) -> Seq<DownloadProgress>
        decreases chunks.len(),
    {
        if chunks.len() == 0 {
            seq![self.sized(size as u64).report()]
        } else {
            self.stream_reports(size, chunks.drop_last()).push(
                self.streamed(size, chunks).report(),
            )
        }
    }

    /// The reports of a whole download, from `init` to `finish`.
    pub open spec fn reports(self, size: usize, chunks: Seq<usize>) -> Seq<DownloadProgress> {
        let streamed = self.streamed(size, chunks);
        if streamed.is_short() {
            self.stream_reports(size, chunks).push(streamed.completed().report())
        } else {
            self.stream_reports(size, chunks)
        }
    }
}

proof fn lemma_streamed(adapter: CallbackProgress, size: usize, chunks: Seq<usize>)
    ensures
        ({
            let streamed = adapter.streamed(size, chunks);
            let reports = adapter.stream_reports(size, chunks);
            let sum = total_size(chunks);
            &&& streamed == CallbackProgress {
                bytes_done: streamed.bytes_done,
                bytes_total: Some(size as u64),
                ..adapter
            }
            &&& streamed.bytes_done == if sum <= u64::MAX {
                sum as u64
            } else {
                u64::MAX
            }
            &&& reports.len() == chunks.len() + 1
            &&& reports.first() == adapter.sized(size as u64).report()
            &&& reports.last() == streamed.report()
            &&& forall|i: int|
                0 <= i < reports.len() ==> (#[trigger] reports[i]) == CallbackProgress {
                    bytes_done: reports[i].bytes_done,
                    ..adapter.sized(size as u64)
                }.report()
            &&& forall|i: int, j: int|
                0 <= i <= j < reports.len() ==> (#[trigger] reports[i]).bytes_done <= (
                #[trigger] reports[j]).bytes_done
        }),
    decreases chunks.len(),
{
    if chunks.len() > 0 {
        lemma_streamed(adapter, size, chunks.drop_last());
    }
}

/// A download that delivers no more than it announced is reported from zero
/// to its full size: the first report has no bytes done, the last has all of
/// them, the count never falls in between, and every report names the same
/// file, position and total. There is one report for the start, one per
/// chunk, and one more only where the chunks fell short.
pub proof fn law_progress_runs_to_completion(
    adapter: CallbackProgress,
    size: usize,
    chunks: Seq<usize>,
)
    requires
        total_size(chunks) <= size,
    ensures
        ({
            let reports = adapter.reports(size, chunks);
            &&& reports.first().bytes_done == 0
            &&& reports.last().bytes_done == size
            &&& reports.len() == 1 + chunks.len() + if total_size(chunks) < size {
                1nat
            } else {
                0nat
            }
            &&& forall|i: int|
                0 <= i < reports.len() ==> {
                    let report = #[trigger] reports[i];
                    &&& report.file == adapter.file
                    &&& report.file_index == adapter.file_index
                    &&& report.file_count == adapter.file_count
                    &&& report.bytes_total == Some(size as u64)
                    &&& report.bytes_done <= size
                }
            &&& forall|i: int, j: int|
                0 <= i <= j < reports.len() ==> (#[trigger] reports[i]).bytes_done <= (
                #[trigger] reports[j]).bytes_done
        }),
{
    lemma_streamed(adapter, size, chunks);
    let streamed = adapter.stream_reports(size, chunks);
    assert forall|i: int| 0 <= i < streamed.len() implies (#[trigger] streamed[i]).bytes_done
        <= streamed.last().bytes_done by {}
}

/// One notification of the hub about a file.
pub enum Notification {
    Init(usize),
    Update(usize),
    Finish,
}

impl CallbackProgress {
    /// The state after a notification.
    pub open spec fn notified(self, note: Notification) -> CallbackProgress {
        match note {
            Notification::Init(size) => self.sized(size as u64),
            Notification::Update(size) => self.advanced(size as u64),
            Notification::Finish => self.completed(),
        }
    }

    /// Whether a notification leads to a report of the state after it.
    pub open spec fn speaks_on(self, note: Notification) -> bool {
        note is Finish ==> self.is_short()
    }

    /// The state after these notifications.
    pub open spec fn notified_all(self, notes: Seq<Notification>) -> CallbackProgress
        decreases notes.len(),
    {
        if notes.len() == 0 {
            self
        } else {
            self.notified_all(notes.drop_last()).notified(notes.last())
        }
    }

    /// The reports made meanwhile, oldest first.
    pub open spec fn reports_on(self, notes: Seq<Notification>) -> Seq<DownloadProgress>
        decreases notes.len(),
    {
        if notes.len() == 0 {
            Seq::empty()
        } else {
            let earlier = self.reports_on(notes.drop_last());
            if self.notified_all(notes.drop_last()).speaks_on(notes.last()) {
                earlier.push(self.notified_all(notes).report())
            } else {
                earlier
            }
        }
    }
}

/// The notifications of a download up to its last chunk.
pub open spec fn stream_notes(size: usize, chunks: Seq<usize>) -> Seq<Notification>
    decreases chunks.len(),
{
    if chunks.len() == 0 {
        seq![Notification::Init(size)]
    } else {
        stream_notes(size, chunks.drop_last()).push(Notification::Update(chunks.last()))
    }
}

/// The notifications of a whole download.
pub open spec fn download_notes(size: usize, chunks: Seq<usize>) -> Seq<Notification> {
    stream_notes(size, chunks).push(Notification::Finish)
}

proof fn lemma_stream_notes(adapter: CallbackProgress, size: usize, chunks: Seq<usize>)
    ensures
        adapter.notified_all(stream_notes(size, chunks)) == adapter.streamed(size, chunks),
        adapter.reports_on(stream_notes(size, chunks)) == adapter.stream_reports(size, chunks),
    decreases chunks.len(),
{
    let notes = stream_notes(size, chunks);
    if chunks.len() > 0 {
        lemma_stream_notes(adapter, size, chunks.drop_last());
        assert(notes.drop_last() == stream_notes(size, chunks.drop_last()));
    } else {
        assert(adapter.reports_on(notes.drop_last()) == Seq::<DownloadProgress>::empty());
    }
}

proof fn lemma_download_notes(adapter: CallbackProgress, size: usize, chunks: Seq<usize>)
    ensures
        adapter.reports_on(download_notes(size, chunks)) == adapter.reports(size, chunks),
{
    lemma_stream_notes(adapter, size, chunks);
    assert(download_notes(size, chunks).drop_last() == stream_notes(size, chunks));
}

proof fn lemma_reports_name_their_file(adapter: CallbackProgress, notes: Seq<Notification>)
    ensures
        ({
            let state = adapter.notified_all(notes);
            &&& state.file == adapter.file
            &&& state.file_index == adapter.file_index
            &&& state.file_count == adapter.file_count
        }),
        forall|k: int|
            0 <= k < adapter.reports_on(notes).len() ==> {
                let report = #[trigger] adapter.reports_on(notes)[k];
                &&& report.file == adapter.file
                &&& report.file_index == adapter.file_index
                &&& report.file_count == adapter.file_count
            },
    decreases notes.len(),
{
    if notes.len() > 0 {
        lemma_reports_name_their_file(adapter, notes.drop_last());
    }
}

/// The reports of a batch whose files were fetched with these adapters, one
/// after the other, under these notifications.
pub open spec fn batch_reports(
    adapters: Seq<CallbackProgress>,
    notes: Seq<Seq<Notification>>,
) -> Seq<DownloadProgress>
    decreases adapters.len(),
{
    if adapters.len() == 0 {
        Seq::empty()
    } else {
        batch_reports(adapters.drop_last(), notes) + adapters.last().reports_on(
            notes[adapters.len() - 1],
        )
    }
}

/// Those of the reports that are about the file at this position.
pub open spec fn reports_about(reports: Seq<DownloadProgress>, position: int) -> Seq<
    DownloadProgress,
>
    decreases reports.len(),
{
    if reports.len() == 0 {
        Seq::empty()
    } else {
        let earlier = reports_about(reports.drop_last(), position);
        if reports.last().file_index == position {
            earlier.push(reports.last())
        } else {
            earlier
        }
    }
}

proof fn lemma_about_in_two_parts(
    a: Seq<DownloadProgress>,
    b: Seq<DownloadProgress>,
    position: int,
)
    ensures
        reports_about(a + b, position) == reports_about(a, position) + reports_about(b, position),
    decreases b.len(),
{
    if b.len() > 0 {
        assert((a + b).drop_last() == a + b.drop_last());
        lemma_about_in_two_parts(a, b.drop_last(), position);
    }
}

proof fn lemma_about_all_or_none(reports: Seq<DownloadProgress>, position: int)
    ensures
        (forall|k: int| 0 <= k < reports.len() ==> (#[trigger] reports[k]).file_index == position)
            ==> reports_about(reports, position) == reports,
        (forall|k: int| 0 <= k < reports.len() ==> (#[trigger] reports[k]).file_index != position)
            ==> reports_about(reports, position).len() == 0,
    decreases reports.len(),
{
    if reports.len() > 0 {
        let earlier = reports.drop_last();
        assert forall|k: int| 0 <= k < earlier.len() implies #[trigger] earlier[k]
            == reports[k] by {}
        lemma_about_all_or_none(earlier, position);
    }
}

/// The reports of a batch, however far it got: each names a file of the
/// batch at its right position, out of the right count; positions never fall
/// along the way; and what is reported on the file at a position is what its
/// own notifications lead to, from a fresh start.
pub proof fn law_batch_reports_file_by_file(
    files: Seq<&str>,
    adapters: Seq<CallbackProgress>,
    notes: Seq<Seq<Notification>>,
)
    requires
        adapters.len() <= files.len(),
        forall|i: int|
            0 <= i < adapters.len() ==> (#[trigger] adapters[i]).is_fresh_for(files, i),
    ensures
        ({
            let reports = batch_reports(adapters, notes);
            &&& adapters.len() == 0 ==> reports.len() == 0
            &&& forall|k: int|
                0 <= k < reports.len() ==> {
                    let report = #[trigger] reports[k];
                    &&& report.file_count == files.len()
                    &&& 1 <= report.file_index <= adapters.len()
                    &&& report.file@ == files[report.file_index - 1]@
                }
            &&& forall|k: int, l: int|
                0 <= k <= l < reports.len() ==> (#[trigger] reports[k]).file_index <= (
                #[trigger] reports[l]).file_index
            &&& forall|i: int|
                0 <= i < adapters.len() ==> #[trigger] reports_about(reports, i + 1)
                    == adapters[i].reports_on(notes[i])
        }),
    decreases adapters.len(),
{
    if adapters.len() > 0 {
        let earlier = adapters.drop_last();
        let n = earlier.len() as int;
        let before = batch_reports(earlier, notes);
        let own = adapters[n].reports_on(notes[n]);
        let reports = batch_reports(adapters, notes);
        law_batch_reports_file_by_file(files, earlier, notes);
        lemma_reports_name_their_file(adapters[n], notes[n]);
        assert forall|i: int| 0 <= i < adapters.len() implies #[trigger] reports_about(
            reports,
            i + 1,
        ) == adapters[i].reports_on(notes[i]) by {
            lemma_about_in_two_parts(before, own, i + 1);
            lemma_about_all_or_none(before, i + 1);
            lemma_about_all_or_none(own, i + 1);
        }
    }
}

/// A batch of downloads that each deliver no more than they announced is
/// reported file by file, each from zero to its full size: the reports on a
/// file begin with no bytes done, never fall, carry its size throughout, and
/// end with all of it.
pub proof fn law_batch_runs_to_completion(
    files: Seq<&str>,
    adapters: Seq<CallbackProgress>,
    notes: Seq<Seq<Notification>>,
    sizes: Seq<usize>,
    chunks: Seq<Seq<usize>>,
    i: int,
)
    requires
        adapters.len() <= files.len(),
        forall|k: int|
            0 <= k < adapters.len() ==> (#[trigger] adapters[k]).is_fresh_for(files, k),
        0 <= i < adapters.len(),
        notes[i] == download_notes(sizes[i], chunks[i]),
        total_size(chunks[i]) <= sizes[i],
    ensures
        ({
            let own = reports_about(batch_reports(adapters, notes), i + 1);
            &&& own.len() > 0
            &&& own.first().bytes_done == 0
            &&& own.last().bytes_done == sizes[i]
            &&& forall|k: int|
                0 <= k < own.len() ==> (#[trigger] own[k]).bytes_total == Some(sizes[i] as u64)
            &&& forall|k: int, l: int|
                0 <= k <= l < own.len() ==> (#[trigger] own[k]).bytes_done <= (
                #[trigger] own[l]).bytes_done
        }),
{
    law_batch_reports_file_by_file(files, adapters, notes);
    lemma_download_notes(adapters[i], sizes[i], chunks[i]);
    law_progress_runs_to_completion(adapters[i], sizes[i], chunks[i]);
}

/// Completing twice reports nothing new.
pub proof fn law_finish_reports_once(adapter: CallbackProgress)
    ensures
        !adapter.completed().is_short(),
        adapter.completed().completed() == adapter.completed(),
{
}

/// What each notification does to the count: the start sets the total and
/// begins at zero, a chunk adds its size, as far as the count goes, and the
/// end fills up to the total where the chunks fell short of it. The file, its
/// position and the number of files stay.
pub proof fn law_notifications_keep_count(adapter: CallbackProgress, size: u64)
    ensures
        ({
            let sized = adapter.sized(size);
            &&& sized.bytes_done == 0
            &&& sized.bytes_total == Some(size)
            &&& sized.file == adapter.file
            &&& sized.file_index == adapter.file_index
            &&& sized.file_count == adapter.file_count
        }),
        ({
            let advanced = adapter.advanced(size);
            &&& adapter.bytes_done + size <= u64::MAX ==> advanced.bytes_done == adapter.bytes_done
                + size
            &&& adapter.bytes_done + size > u64::MAX ==> advanced.bytes_done == u64::MAX
            &&& advanced.bytes_total == adapter.bytes_total
            &&& advanced.file == adapter.file
            &&& advanced.file_index == adapter.file_index
            &&& advanced.file_count == adapter.file_count
        }),
        adapter.is_short() <==> (adapter.bytes_total matches Some(total) && adapter.bytes_done
            < total),
        ({
            let completed = adapter.completed();
            &&& adapter.bytes_total matches Some(total) ==> completed.bytes_done == if adapter.bytes_done
                < total {
                total
            } else {
                adapter.bytes_done
            }
            &&& adapter.bytes_total is None ==> completed.bytes_done == adapter.bytes_done
            &&& completed.bytes_total == adapter.bytes_total
            &&& completed.file == adapter.file
            &&& completed.file_index == adapter.file_index
            &&& completed.file_count == adapter.file_count
        }),
{
}

/// A report shows the state it is made in.
pub proof fn law_reports_show_the_state(adapter: CallbackProgress)
    ensures
        adapter.report().file == adapter.file,
        adapter.report().file_index == adapter.file_index,
        adapter.report().file_count == adapter.file_count,
        adapter.report().bytes_done == adapter.bytes_done,
        adapter.report().bytes_total == adapter.bytes_total,
{
}

/// While a file streams in, the report on a chunk counts the bytes of all
/// chunks up to it, as far as the count goes.
pub proof fn law_reports_count_the_chunks(
    adapter: CallbackProgress,
    size: usize,
    chunks: Seq<usize>,
    k: int,
)
    requires
        0 <= k <= chunks.len(),
    ensures
        adapter.stream_reports(size, chunks).len() == chunks.len() + 1,
        total_size(chunks.take(k)) <= u64::MAX ==> adapter.stream_reports(
            size,
            chunks,
        )[k].bytes_done == total_size(chunks.take(k)),
        total_size(chunks.take(k)) > u64::MAX ==> adapter.stream_reports(size, chunks)[k].bytes_done
            == u64::MAX,
    decreases chunks.len(),
{
    lemma_streamed(adapter, size, chunks);
    if k == chunks.len() {
        assert(chunks.take(k) == chunks);
    } else {
        lemma_streamed(adapter, size, chunks.drop_last());
        law_reports_count_the_chunks(adapter, size, chunks.drop_last(), k);
        assert(chunks.drop_last().take(k) == chunks.take(k));
    }
}

} // verus!
