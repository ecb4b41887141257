//! Resumable download of a remote file in fixed-size byte ranges.
//!
//! The task decides; the caller fetches each range, writes it at its offset
//! in the local file, and reports back.

use vstd::prelude::*;
use crate::chunk::{
    CHUNK_SIZE, chunk_count, chunk_count_of, chunk_limit_of, chunk_range, chunk_start_of,
    covered_by, lemma_chunk_boundaries, lemma_chunks_len_sum, resume_chunk,
};
use crate::transfer::{ChunkVerdict, MAX_CHUNK_ATTEMPTS, TransferError, copy_text, error_text, may_retry};

verus! {

/// Life cycle of a download.
#[derive(Clone, Debug)]
pub enum DownloadStatus {
    Pending,
    Downloading,
    Paused,
    Completed,
    Error(String),
}

/// What the caller must do next for a download.
#[derive(Debug)]
pub enum DownloadStep {
    /// Fetch bytes `start..=end` of the remote file and write them at offset
    /// `start` of the local file; report with `chunk_written` or
    /// `chunk_failed`.
    Fetch { index: u64, start: u64, end: u64 },
    /// Every chunk is on disk: report the local file's length with
    /// `verified`.
    Verify,
    /// Nothing more to do: the task is paused, failed or complete.
    Stop,
}

/// Snapshot of a download's progress.
#[derive(Clone, Debug)]
pub struct DownloadProgress {
    pub file_id: String,
    pub file_name: String,
    pub total_size: u64,
    pub downloaded: u64,
    pub status: DownloadStatus,
    pub chunks_total: u64,
    pub chunks_completed: u64,
}

/// A download of one remote file.
pub struct DownloadTask {
    /// Remote path of the file.
    pub file_id: String,
    pub file_name: String,
    pub total_size: u64,
    /// Bytes known to be on disk: all chunks before `next_chunk`.
    pub downloaded: u64,
    pub status: DownloadStatus,
    /// The chunk to fetch next.
    pub next_chunk: u64,
    /// Failed attempts on `next_chunk` so far.
    pub failed_attempts: u32,
}

/// `b` and `a` are the same download: same remote file, name and size.
pub open spec fn same_download(a: DownloadTask, b: DownloadTask) -> bool {
    b.file_id == a.file_id && b.file_name == a.file_name && b.total_size == a.total_size
}

/// `b` reports the same status as `a`.
pub open spec fn same_download_status(a: DownloadStatus, b: DownloadStatus) -> bool {
    match a {
        DownloadStatus::Error(m) => b is Error && b->Error_0@ == m@,
        _ => b == a,
    }
}

/// `b` is `a` after a failed attempt on its current chunk, with verdict `r`.
pub open spec fn download_failure_step(a: DownloadTask, b: DownloadTask, reason: Seq<char>, r: ChunkVerdict) -> bool {
    &&& b.next_chunk == a.next_chunk
    &&& b.downloaded == a.downloaded
    &&& if may_retry((a.failed_attempts + 1) as nat) {
        &&& r is Retry
        &&& b.failed_attempts == a.failed_attempts + 1
        &&& b.status == a.status
    } else {
        &&& r is Abort
        &&& r->Abort_0 is DownloadChunkFailed
        &&& r->Abort_0->DownloadChunkFailed_index == a.next_chunk
        &&& r->Abort_0->DownloadChunkFailed_reason@ == reason
        &&& b.status is Error
        &&& b.status->Error_0@ == error_text(r->Abort_0)
        &&& b.failed_attempts == 0
    }
}

/// `b` is `a` after its current chunk was written.
pub open spec fn download_success_step(a: DownloadTask, b: DownloadTask) -> bool {
    &&& b.next_chunk == a.next_chunk + 1
    &&& b.downloaded == covered_by(b.next_chunk as nat, a.total_size as nat)
    &&& b.failed_attempts == 0
    &&& b.status == a.status
}

impl DownloadTask {
    /// Progress counters agree with the chunk plan.
    pub open spec fn wf(&self) -> bool {
        &&& self.next_chunk <= chunk_count_of(self.total_size as nat)
        &&& self.downloaded == covered_by(self.next_chunk as nat, self.total_size as nat)
        &&& self.failed_attempts < MAX_CHUNK_ATTEMPTS
    }

    /// The step the task calls for in its present state.
    pub open spec fn spec_next_step(&self) -> DownloadStep {
        match self.status {
            DownloadStatus::Downloading => if self.next_chunk < chunk_count_of(self.total_size as nat) {
                DownloadStep::Fetch {
                    index: self.next_chunk,
                    start: chunk_start_of(self.next_chunk as nat) as u64,
                    end: (chunk_limit_of(self.next_chunk as nat, self.total_size as nat) - 1) as u64,
                }
            } else {
                DownloadStep::Verify
            },
            _ => DownloadStep::Stop,
        }
    }

    /// A pending download of `total_size` bytes.
    pub fn new(file_id: String, file_name: String, total_size: u64) -> (r: Self)
        ensures
            r.wf(),
            r.file_id == file_id,
            r.file_name == file_name,
            r.total_size == total_size,
            r.status is Pending,
            r.next_chunk == 0,
            r.downloaded == 0,
    {
        DownloadTask {
            file_id,
            file_name,
            total_size,
            downloaded: 0,
            status: DownloadStatus::Pending,
            next_chunk: 0,
            failed_attempts: 0,
        }
    }

    /// Starts or resumes the download. `present` is the length of the local
    /// file if it already exists: the download resumes at the last chunk
    /// boundary at or below it.
    pub fn start(&mut self, present: Option<u64>) -> (r: DownloadStep)
        ensures
            same_download(*old(self), *final(self)),
            final(self).wf(),
            final(self).status is Downloading,
            final(self).failed_attempts == 0,
            final(self).total_size == old(self).total_size,
            final(self).next_chunk == match present {
                Some(len) => if len as nat / CHUNK_SIZE as nat <= chunk_count_of(old(self).total_size as nat) {
                    len as nat / CHUNK_SIZE as nat
                } else {
                    chunk_count_of(old(self).total_size as nat)
                },
                None => 0,
            },
            r == final(self).spec_next_step(),
    {
        let count = chunk_count(self.total_size);
        let first = match present {
            Some(len) => {
                let c = resume_chunk(len);
                if c <= count { c } else { count }
            },
            None => 0,
        };
        self.status = DownloadStatus::Downloading;
        self.next_chunk = first;
        self.failed_attempts = 0;
        self.downloaded = if first < count { first * CHUNK_SIZE } else { self.total_size };
        self.next_step()
    }

    /// The step the task calls for now. A pause is observed here, between
    /// chunks.
    pub fn next_step(&self) -> (r: DownloadStep)
        requires
            self.wf(),
        ensures
            r == self.spec_next_step(),
    {
        match self.status {
            DownloadStatus::Downloading => {
                if self.next_chunk < chunk_count(self.total_size) {
                    let (start, end) = chunk_range(self.next_chunk, self.total_size);
                    DownloadStep::Fetch { index: self.next_chunk, start, end }
                } else {
                    DownloadStep::Verify
                }
            },
            _ => DownloadStep::Stop,
        }
    }

    /// The chunk named by the last `Fetch` step is on disk.
    pub fn chunk_written(&mut self) -> (r: DownloadStep)
        requires
            old(self).wf(),
            old(self).next_chunk < chunk_count_of(old(self).total_size as nat),
        ensures
            same_download(*old(self), *final(self)),
            final(self).wf(),
            download_success_step(*old(self), *final(self)),
            final(self).total_size == old(self).total_size,
            r == final(self).spec_next_step(),
    {
        proof {
            lemma_chunks_len_sum(self.next_chunk as nat + 1, self.total_size as nat);
        }
        let (_, end) = chunk_range(self.next_chunk, self.total_size);
        self.next_chunk = self.next_chunk + 1;
        self.downloaded = end + 1;
        self.failed_attempts = 0;
        self.next_step()
    }

    /// An attempt on the chunk named by the last `Fetch` step failed with
    /// `reason`. Up to three attempts are made; then the task fails with an
    /// error naming the chunk, and the partial file is left for a later
    /// resume.
    pub fn chunk_failed(&mut self, reason: String) -> (r: ChunkVerdict)
        requires
            old(self).wf(),
        ensures
            same_download(*old(self), *final(self)),
            final(self).wf(),
            download_failure_step(*old(self), *final(self), reason@, r),
            final(self).total_size == old(self).total_size,
    {
        if self.failed_attempts + 1 < MAX_CHUNK_ATTEMPTS {
            self.failed_attempts = self.failed_attempts + 1;
            ChunkVerdict::Retry
        } else {
            let e = TransferError::DownloadChunkFailed { index: self.next_chunk, reason };
            self.status = DownloadStatus::Error(e.message());
            self.failed_attempts = 0;
            ChunkVerdict::Abort(e)
        }
    }

    /// The local file has `file_len` bytes after the last chunk: the
    /// download completes when that is the expected size, and fails
    /// otherwise (the file is kept).
    pub fn verified(&mut self, file_len: u64) -> (r: Result<(), TransferError>)
        requires
            old(self).wf(),
        ensures
            same_download(*old(self), *final(self)),
            final(self).wf(),
            final(self).next_chunk == old(self).next_chunk,
            file_len == old(self).total_size ==> r is Ok && final(self).status is Completed,
            file_len != old(self).total_size ==> r == Err::<(), TransferError>(
                TransferError::IntegrityMismatch { expected: old(self).total_size, actual: file_len })
                && final(self).status is Error
                && final(self).status->Error_0@ == error_text(r->Err_0),
    {
        if file_len == self.total_size {
            self.status = DownloadStatus::Completed;
            Ok(())
        } else {
            let e = TransferError::IntegrityMismatch { expected: self.total_size, actual: file_len };
            self.status = DownloadStatus::Error(e.message());
            Err(e)
        }
    }

    /// Asks the task to stop before its next chunk.
    pub fn pause(&mut self)
        requires
            old(self).wf(),
        ensures
            same_download(*old(self), *final(self)),
            final(self).wf(),
            final(self).status is Paused,
            final(self).next_chunk == old(self).next_chunk,
            final(self).downloaded == old(self).downloaded,
    {
        self.status = DownloadStatus::Paused;
    }

    /// Snapshot of the task's progress.
    pub fn get_progress(&self) -> (r: DownloadProgress)
        requires
            self.wf(),
        ensures
            r.file_id@ == self.file_id@,
            r.file_name@ == self.file_name@,
            r.total_size == self.total_size,
            r.downloaded == self.downloaded,
            r.chunks_total == chunk_count_of(self.total_size as nat),
            r.chunks_completed == self.next_chunk,
            same_download_status(self.status, r.status),
    {
        let status = match &self.status {
            DownloadStatus::Pending => DownloadStatus::Pending,
            DownloadStatus::Downloading => DownloadStatus::Downloading,
            DownloadStatus::Paused => DownloadStatus::Paused,
            DownloadStatus::Completed => DownloadStatus::Completed,
            DownloadStatus::Error(m) => DownloadStatus::Error(copy_text(m)),
        };
        DownloadProgress {
            file_id: copy_text(&self.file_id),
            file_name: copy_text(&self.file_name),
            total_size: self.total_size,
            downloaded: self.downloaded,
            status,
            chunks_total: chunk_count(self.total_size),
            chunks_completed: self.next_chunk,
        }
    }
}

/// Retry bound: on a chunk with no failed attempt yet, the first two
/// failures each lead to another attempt, and a success after them writes
/// the chunk; a third failure gives the transfer up with an error naming
/// the chunk, after which the task calls for no further attempt.
pub proof fn lemma_download_retry_bound(
    t0: DownloadTask,
    t1: DownloadTask,
    t2: DownloadTask,
    t3: DownloadTask,
    t4: DownloadTask,
    e1: Seq<char>,
    e2: Seq<char>,
    e3: Seq<char>,
    r1: ChunkVerdict,
    r2: ChunkVerdict,
    r3: ChunkVerdict,
)
    requires
        t0.failed_attempts == 0,
        t0.status is Downloading,
        download_failure_step(t0, t1, e1, r1),
        download_failure_step(t1, t2, e2, r2),
    ensures
        r1 is Retry,
        r2 is Retry,
        t2.next_chunk == t0.next_chunk,
        t2.status is Downloading,
        download_success_step(t2, t4) ==> t4.next_chunk == t0.next_chunk + 1 && t4.status is Downloading,
        download_failure_step(t2, t3, e3, r3) ==> (r3 is Abort
            && r3->Abort_0 is DownloadChunkFailed
            && r3->Abort_0->DownloadChunkFailed_index == t0.next_chunk
            && t3.spec_next_step() is Stop),
{
}

/// `f` with `data` written at offset `off`; the file grows as needed.
pub open spec fn write_at(f: Seq<u8>, off: nat, data: Seq<u8>) -> Seq<u8> {
    let end = off + data.len();
    f.subrange(0, off as int) + data + if end < f.len() {
        f.subrange(end as int, f.len() as int)
    } else {
        Seq::empty()
    }
}

/// `f` after chunks `from .. to` of `remote` were fetched and each written at
/// its own offset, in order.
pub open spec fn fetch_chunks(f: Seq<u8>, remote: Seq<u8>, from: nat, to: nat) -> Seq<u8>
    decreases to,
{
    if to <= from {
        f
    } else {
        let i = (to - 1) as nat;
        write_at(
            fetch_chunks(f, remote, from, i),
            chunk_start_of(i),
            remote.subrange(chunk_start_of(i) as int, chunk_limit_of(i, remote.len()) as int),
        )
    }
}

proof fn lemma_fetch_prefix(remote: Seq<u8>, partial: Seq<u8>, from: nat, j: nat)
    requires
        partial.len() <= remote.len(),
        partial == remote.subrange(0, partial.len() as int),
        from <= j <= chunk_count_of(remote.len()),
        covered_by(from, remote.len()) <= partial.len(),
    ensures
        covered_by(j, remote.len()) <= fetch_chunks(partial, remote, from, j).len() <= remote.len(),
        fetch_chunks(partial, remote, from, j) == remote.subrange(
            0,
            fetch_chunks(partial, remote, from, j).len() as int,
        ),
    decreases j,
{
    if j > from {
        let i = (j - 1) as nat;
        let total = remote.len();
        lemma_fetch_prefix(remote, partial, from, i);
        let g = fetch_chunks(partial, remote, from, i);
        let off = chunk_start_of(i);
        let lim = chunk_limit_of(i, total);
        assert(off < total && off < lim);
        assert(off == covered_by(i, total));
        assert(lim == covered_by(j, total));
        let data = remote.subrange(off as int, lim as int);
        let h = write_at(g, off, data);
        assert(h == fetch_chunks(partial, remote, from, j));
        if lim < g.len() {
            assert(h =~= remote.subrange(0, g.len() as int));
        } else {
            assert(h =~= remote.subrange(0, lim as int));
        }
    }
}

/// Resume idempotence: when the local file holds any prefix of the remote
/// file (for instance the first N whole chunks of an interrupted download),
/// resuming at the last chunk boundary within it and fetching the remaining
/// chunks gives exactly the remote file, as a download from scratch does.
pub proof fn lemma_resume_idempotent(remote: Seq<u8>, partial: Seq<u8>)
    requires
        partial.len() <= remote.len(),
        partial == remote.subrange(0, partial.len() as int),
    ensures
        partial.len() / (CHUNK_SIZE as nat) <= chunk_count_of(remote.len()),
        fetch_chunks(partial, remote, partial.len() / (CHUNK_SIZE as nat), chunk_count_of(remote.len()))
            == remote,
        fetch_chunks(Seq::empty(), remote, 0, chunk_count_of(remote.len())) == remote,
{
    let total = remote.len();
    let n = chunk_count_of(total);
    let k = partial.len() / (CHUNK_SIZE as nat);
    if total > 0 {
        lemma_chunk_boundaries(total);
        assert(covered_by(n, total) == total);
    }
    assert(k * CHUNK_SIZE as nat <= partial.len());
    lemma_fetch_prefix(remote, partial, k, n);
    assert(remote.subrange(0, total as int) =~= remote);
    let empty = Seq::<u8>::empty();
    assert(empty =~= remote.subrange(0, 0));
    lemma_fetch_prefix(remote, empty, 0, n);
}

} // verus!
