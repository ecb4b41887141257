//! Resumable multipart upload of a local file in fixed-size chunks.
//!
//! The remote session remembers which chunk indices it has accepted; the
//! task sends every other chunk, then asks the endpoint to assemble the file.

use vstd::prelude::*;
use crate::chunk::{
    chunk_count, chunk_count_of, chunk_len_of, chunk_limit_of, chunk_range, chunk_start_of,
    chunks_len_sum, covered_by, lemma_chunks_len_sum,
};
use crate::transfer::{ChunkVerdict, MAX_CHUNK_ATTEMPTS, TransferError, copy_text, error_text, may_retry};

verus! {

/// Life cycle of an upload.
#[derive(Clone, Debug)]
pub enum UploadStatus {
    Pending,
    Uploading,
    Paused,
    Completed,
    Error(String),
}

/// What the caller must do next for an upload.
#[derive(Debug)]
pub enum UploadStep {
    /// Read bytes `start..=end` of the local file and post them as chunk
    /// `index` of the session; report with `chunk_sent` or `chunk_failed`.
    Send { index: u64, start: u64, end: u64 },
    /// Every chunk is accepted: ask the endpoint to assemble the file from
    /// `chunks_total` chunks; report with `finished`.
    Finish,
    /// Nothing more to do: the task is paused, failed or complete.
    Stop,
}

/// Snapshot of an upload's progress.
#[derive(Clone, Debug)]
pub struct UploadProgress {
    pub upload_id: String,
    pub filename: String,
    pub total_size: u64,
    pub uploaded: u64,
    pub status: UploadStatus,
    pub chunks_total: u64,
    pub chunks_completed: u64,
}

/// An upload of one local file into a remote upload session.
pub struct UploadTask {
    pub upload_id: String,
    pub filename: String,
    pub total_size: u64,
    pub chunks_total: u64,
    /// Folder the remote endpoint should put the file in, if any.
    pub target_path: Option<String>,
    /// Chunk indices the remote session had accepted when the task started.
    pub remote_done: Vec<u64>,
    /// Bytes accepted by the remote session.
    pub uploaded: u64,
    pub status: UploadStatus,
    /// The chunk to send next.
    pub next_chunk: u64,
    /// Failed attempts on `next_chunk` so far.
    pub failed_attempts: u32,
}

/// Total length of the chunks below `n` that are (`accepted`) or are not
/// (`!accepted`) in `done`.
pub open spec fn bytes_where(n: nat, total: nat, done: Seq<u64>, accepted: bool) -> nat
    decreases n,
{
    if n == 0 {
        0
    } else {
        let i = (n - 1) as nat;
        bytes_where(i, total, done, accepted) + if done.contains(i as u64) == accepted {
            chunk_len_of(i, total)
        } else {
            0
        }
    }
}

proof fn lemma_bytes_split(n: nat, total: nat, done: Seq<u64>)
    ensures
        bytes_where(n, total, done, true) + bytes_where(n, total, done, false) == chunks_len_sum(n, total),
    decreases n,
{
    if n > 0 {
        lemma_bytes_split((n - 1) as nat, total, done);
    }
}

proof fn lemma_bytes_none(n: nat, total: nat)
    ensures
        bytes_where(n, total, Seq::<u64>::empty(), true) == 0,
    decreases n,
{
    if n > 0 {
        lemma_bytes_none((n - 1) as nat, total);
    }
}

proof fn lemma_bytes_monotone(m: nat, n: nat, total: nat, done: Seq<u64>, accepted: bool)
    requires
        m <= n,
    ensures
        bytes_where(m, total, done, accepted) <= bytes_where(n, total, done, accepted),
    decreases n,
{
    if m < n {
        lemma_bytes_monotone(m, (n - 1) as nat, total, done, accepted);
    }
}

proof fn lemma_uploaded_bound(m: nat, n: nat, total: nat, done: Seq<u64>)
    requires
        m <= n <= chunk_count_of(total),
    ensures
        bytes_where(n, total, done, true) + bytes_where(m, total, done, false) <= total,
{
    lemma_bytes_monotone(m, n, total, done, false);
    lemma_bytes_split(n, total, done);
    lemma_chunks_len_sum(n, total);
}

/// `b` and `a` are the same upload: same session, file, size and target.
pub open spec fn same_upload(a: UploadTask, b: UploadTask) -> bool {
    &&& b.upload_id == a.upload_id
    &&& b.filename == a.filename
    &&& b.total_size == a.total_size
    &&& b.chunks_total == a.chunks_total
    &&& b.target_path == a.target_path
}

/// `b` reports the same status as `a`.
pub open spec fn same_upload_status(a: UploadStatus, b: UploadStatus) -> bool {
    match a {
        UploadStatus::Error(m) => b is Error && b->Error_0@ == m@,
        _ => b == a,
    }
}

/// `b` is `a` after a failed attempt on its current chunk, with verdict `r`.
pub open spec fn upload_failure_step(a: UploadTask, b: UploadTask, reason: Seq<char>, r: ChunkVerdict) -> bool {
    &&& b.next_chunk == a.next_chunk
    &&& b.uploaded == a.uploaded
    &&& if may_retry((a.failed_attempts + 1) as nat) {
        &&& r is Retry
        &&& b.failed_attempts == a.failed_attempts + 1
        &&& b.status == a.status
    } else {
        &&& r is Abort
        &&& r->Abort_0 is UploadChunkFailed
        &&& r->Abort_0->UploadChunkFailed_index == a.next_chunk
        &&& r->Abort_0->UploadChunkFailed_reason@ == reason
        &&& b.status is Error
        &&& b.status->Error_0@ == error_text(r->Abort_0)
        &&& b.failed_attempts == 0
    }
}

fn list_contains(v: &Vec<u64>, x: u64) -> (r: bool)
    ensures
        r == v@.contains(x),
{
    let mut i: usize = 0;
    while i < v.len()
        invariant
            i <= v@.len(),
            forall|j: int| 0 <= j < i ==> v@[j] != x,
        decreases v.len() - i,
    {
        if v[i] == x {
            return true;
        }
        i = i + 1;
    }
    false
}

impl UploadTask {
    /// Progress counters agree with the chunk plan and the accepted set.
    pub open spec fn wf(&self) -> bool {
        &&& self.chunks_total == chunk_count_of(self.total_size as nat)
        &&& self.next_chunk <= self.chunks_total
        &&& self.uploaded == bytes_where(self.chunks_total as nat, self.total_size as nat, self.remote_done@, true)
            + bytes_where(self.next_chunk as nat, self.total_size as nat, self.remote_done@, false)
        &&& self.failed_attempts < MAX_CHUNK_ATTEMPTS
        &&& (self.next_chunk < self.chunks_total ==> !self.remote_done@.contains(self.next_chunk))
    }

    /// The step the task calls for in its present state.
    pub open spec fn spec_next_step(&self) -> UploadStep {
        match self.status {
            UploadStatus::Uploading => if self.next_chunk < self.chunks_total {
                UploadStep::Send {
                    index: self.next_chunk,
                    start: chunk_start_of(self.next_chunk as nat) as u64,
                    end: (chunk_limit_of(self.next_chunk as nat, self.total_size as nat) - 1) as u64,
                }
            } else {
                UploadStep::Finish
            },
            _ => UploadStep::Stop,
        }
    }

    /// A pending upload of `total_size` bytes into session `upload_id`.
    pub fn new(upload_id: String, filename: String, total_size: u64, target_path: Option<String>) -> (r: Self)
        ensures
            r.wf(),
            r.upload_id == upload_id,
            r.filename == filename,
            r.total_size == total_size,
            r.target_path == target_path,
            r.chunks_total == chunk_count_of(total_size as nat),
            r.status is Pending,
            r.uploaded == 0,
    {
        proof {
            lemma_bytes_none(chunk_count_of(total_size as nat), total_size as nat);
        }
        UploadTask {
            upload_id,
            filename,
            total_size,
            chunks_total: chunk_count(total_size),
            target_path,
            remote_done: Vec::new(),
            uploaded: 0,
            status: UploadStatus::Pending,
            next_chunk: 0,
            failed_attempts: 0,
        }
    }

    /// Moves `next_chunk` past chunks the remote session already holds.
    fn skip_accepted(&mut self)
        requires
            old(self).chunks_total == chunk_count_of(old(self).total_size as nat),
            old(self).next_chunk <= old(self).chunks_total,
            old(self).uploaded == bytes_where(old(self).chunks_total as nat, old(self).total_size as nat, old(self).remote_done@, true)
                + bytes_where(old(self).next_chunk as nat, old(self).total_size as nat, old(self).remote_done@, false),
            old(self).failed_attempts < MAX_CHUNK_ATTEMPTS,
        ensures
            final(self).wf(),
            final(self).next_chunk >= old(self).next_chunk,
            forall|i: u64| old(self).next_chunk <= i < final(self).next_chunk ==> old(self).remote_done@.contains(i),
            final(self).uploaded == old(self).uploaded,
            final(self).status == old(self).status,
            final(self).remote_done == old(self).remote_done,
            final(self).total_size == old(self).total_size,
            final(self).chunks_total == old(self).chunks_total,
            final(self).failed_attempts == old(self).failed_attempts,
            final(self).upload_id == old(self).upload_id,
            final(self).filename == old(self).filename,
            final(self).target_path == old(self).target_path,
    {
        while self.next_chunk < self.chunks_total && list_contains(&self.remote_done, self.next_chunk)
            invariant
                self.chunks_total == old(self).chunks_total,
                self.total_size == old(self).total_size,
                self.remote_done == old(self).remote_done,
                self.uploaded == old(self).uploaded,
                self.status == old(self).status,
                self.failed_attempts == old(self).failed_attempts,
                self.upload_id == old(self).upload_id,
                self.filename == old(self).filename,
                self.target_path == old(self).target_path,
                old(self).next_chunk <= self.next_chunk <= self.chunks_total,
                self.chunks_total == chunk_count_of(self.total_size as nat),
                self.uploaded == bytes_where(self.chunks_total as nat, self.total_size as nat, self.remote_done@, true)
                    + bytes_where(self.next_chunk as nat, self.total_size as nat, self.remote_done@, false),
                forall|i: u64| old(self).next_chunk <= i < self.next_chunk ==> old(self).remote_done@.contains(i),
            decreases self.chunks_total - self.next_chunk,
        {
            self.next_chunk = self.next_chunk + 1;
        }
    }

    /// Starts or resumes the upload, given the chunk indices the remote
    /// session reports as accepted (none if it could not be asked).
    pub fn start(&mut self, remote_done: Vec<u64>) -> (r: UploadStep)
        requires
            old(self).wf(),
        ensures
            same_upload(*old(self), *final(self)),
            final(self).wf(),
            final(self).status is Uploading,
            final(self).failed_attempts == 0,
            final(self).remote_done@ == remote_done@,
            final(self).total_size == old(self).total_size,
            forall|i: u64| 0 <= i < final(self).next_chunk ==> remote_done@.contains(i),
            final(self).uploaded == bytes_where(final(self).chunks_total as nat, final(self).total_size as nat,
                remote_done@, true),
            r == final(self).spec_next_step(),
    {
        let count = self.chunks_total;
        let mut acc: u64 = 0;
        let mut i: u64 = 0;
        while i < count
            invariant
                count == chunk_count_of(self.total_size as nat),
                i <= count,
                acc == bytes_where(i as nat, self.total_size as nat, remote_done@, true),
            decreases count - i,
        {
            proof {
                lemma_uploaded_bound(0, i as nat + 1, self.total_size as nat, remote_done@);
            }
            if list_contains(&remote_done, i) {
                let (s, e) = chunk_range(i, self.total_size);
                acc = acc + (e - s + 1);
            }
            i = i + 1;
        }
        self.remote_done = remote_done;
        self.uploaded = acc;
        self.next_chunk = 0;
        self.failed_attempts = 0;
        self.status = UploadStatus::Uploading;
        self.skip_accepted();
        self.next_step()
    }

    /// The step the task calls for now. A pause is observed here, between
    /// chunks.
    pub fn next_step(&self) -> (r: UploadStep)
        requires
            self.wf(),
        ensures
            r == self.spec_next_step(),
    {
        match self.status {
            UploadStatus::Uploading => {
                if self.next_chunk < self.chunks_total {
                    let (start, end) = chunk_range(self.next_chunk, self.total_size);
                    UploadStep::Send { index: self.next_chunk, start, end }
                } else {
                    UploadStep::Finish
                }
            },
            _ => UploadStep::Stop,
        }
    }

    /// The chunk named by the last `Send` step was accepted.
    pub fn chunk_sent(&mut self) -> (r: UploadStep)
        requires
            old(self).wf(),
            old(self).next_chunk < old(self).chunks_total,
        ensures
            same_upload(*old(self), *final(self)),
            final(self).wf(),
            final(self).uploaded == old(self).uploaded + chunk_len_of(old(self).next_chunk as nat,
                old(self).total_size as nat),
            final(self).next_chunk > old(self).next_chunk,
            final(self).failed_attempts == 0,
            final(self).status == old(self).status,
            forall|i: u64| old(self).next_chunk < i < final(self).next_chunk ==> old(self).remote_done@.contains(i),
            final(self).remote_done == old(self).remote_done,
            r == final(self).spec_next_step(),
    {
        proof {
            lemma_uploaded_bound(self.next_chunk as nat + 1, self.chunks_total as nat, self.total_size as nat,
                self.remote_done@);
        }
        let (s, e) = chunk_range(self.next_chunk, self.total_size);
        self.uploaded = self.uploaded + (e - s + 1);
        self.next_chunk = self.next_chunk + 1;
        self.failed_attempts = 0;
        self.skip_accepted();
        self.next_step()
    }

    /// An attempt on the chunk named by the last `Send` step failed with
    /// `reason`. Up to three attempts are made; then the task fails with an
    /// error naming the chunk.
    pub fn chunk_failed(&mut self, reason: String) -> (r: ChunkVerdict)
        requires
            old(self).wf(),
        ensures
            same_upload(*old(self), *final(self)),
            final(self).wf(),
            upload_failure_step(*old(self), *final(self), reason@, r),
    {
        if self.failed_attempts + 1 < MAX_CHUNK_ATTEMPTS {
            self.failed_attempts = self.failed_attempts + 1;
            ChunkVerdict::Retry
        } else {
            let e = TransferError::UploadChunkFailed { index: self.next_chunk, reason };
            self.status = UploadStatus::Error(e.message());
            self.failed_attempts = 0;
            ChunkVerdict::Abort(e)
        }
    }

    /// Outcome of asking the endpoint to assemble the file.
    pub fn finished(&mut self, result: Result<(), String>) -> (r: Result<(), TransferError>)
        requires
            old(self).wf(),
        ensures
            same_upload(*old(self), *final(self)),
            final(self).wf(),
            final(self).uploaded == old(self).uploaded,
            result is Ok ==> r is Ok && final(self).status is Completed,
            result is Err ==> r == Err::<(), TransferError>(TransferError::FinishFailed(result->Err_0))
                && final(self).status is Error
                && final(self).status->Error_0@ == error_text(r->Err_0),
    {
        match result {
            Ok(_) => {
                self.status = UploadStatus::Completed;
                Ok(())
            },
            Err(reason) => {
                let e = TransferError::FinishFailed(reason);
                self.status = UploadStatus::Error(e.message());
                Err(e)
            },
        }
    }

    /// Asks the task to stop before its next chunk.
    pub fn pause(&mut self)
        requires
            old(self).wf(),
        ensures
            same_upload(*old(self), *final(self)),
            final(self).wf(),
            final(self).status is Paused,
            final(self).next_chunk == old(self).next_chunk,
            final(self).uploaded == old(self).uploaded,
    {
        self.status = UploadStatus::Paused;
    }

    /// Snapshot of the task's progress; `chunks_completed` is the share of
    /// accepted bytes scaled to the chunk count, rounded down.
    pub fn get_progress(&self) -> (r: UploadProgress)
        requires
            self.wf(),
        ensures
            r.upload_id@ == self.upload_id@,
            r.filename@ == self.filename@,
            r.total_size == self.total_size,
            r.uploaded == self.uploaded,
            r.chunks_total == self.chunks_total,
            self.total_size > 0 ==> r.chunks_completed == self.uploaded as nat * self.chunks_total as nat
                / self.total_size as nat,
            self.total_size == 0 ==> r.chunks_completed == 0,
            same_upload_status(self.status, r.status),
    {
        proof {
            lemma_uploaded_bound(self.next_chunk as nat, self.chunks_total as nat, self.total_size as nat,
                self.remote_done@);
        }
        let status = match &self.status {
            UploadStatus::Pending => UploadStatus::Pending,
            UploadStatus::Uploading => UploadStatus::Uploading,
            UploadStatus::Paused => UploadStatus::Paused,
            UploadStatus::Completed => UploadStatus::Completed,
            UploadStatus::Error(m) => UploadStatus::Error(copy_text(m)),
        };
        let done = if self.total_size > 0 {
            assert(self.uploaded as nat * self.chunks_total as nat <= u64::MAX as nat * u64::MAX as nat)
                by (nonlinear_arith)
                requires
                    self.uploaded <= u64::MAX,
                    self.chunks_total <= u64::MAX;
            let wide = (self.uploaded as u128) * (self.chunks_total as u128) / (self.total_size as u128);
            assert(self.uploaded as nat * self.chunks_total as nat / self.total_size as nat
                <= self.chunks_total) by (nonlinear_arith)
                requires
                    self.uploaded <= self.total_size,
                    self.total_size > 0;
            wide as u64
        } else {
            0
        };
        UploadProgress {
            upload_id: copy_text(&self.upload_id),
            filename: copy_text(&self.filename),
            total_size: self.total_size,
            uploaded: self.uploaded,
            status,
            chunks_total: self.chunks_total,
            chunks_completed: done,
        }
    }
}

/// Retry bound for uploads: two failed attempts on a chunk each lead to
/// another attempt; a third gives the transfer up with an error naming the
/// chunk, after which the task calls for no further attempt.
pub proof fn lemma_upload_retry_bound(
    t0: UploadTask,
    t1: UploadTask,
    t2: UploadTask,
    t3: UploadTask,
    e1: Seq<char>,
    e2: Seq<char>,
    e3: Seq<char>,
    r1: ChunkVerdict,
    r2: ChunkVerdict,
    r3: ChunkVerdict,
)
    requires
        t0.failed_attempts == 0,
        t0.status is Uploading,
        upload_failure_step(t0, t1, e1, r1),
        upload_failure_step(t1, t2, e2, r2),
        upload_failure_step(t2, t3, e3, r3),
    ensures
        r1 is Retry,
        r2 is Retry,
        r3 is Abort,
        r3->Abort_0 is UploadChunkFailed,
        r3->Abort_0->UploadChunkFailed_index == t0.next_chunk,
        t3.spec_next_step() is Stop,
{
}

/// Once every chunk is in, the bytes accepted add up to the file's size.
pub proof fn lemma_upload_complete(t: UploadTask)
    requires
        t.wf(),
        t.next_chunk == t.chunks_total,
    ensures
        t.uploaded == t.total_size,
{
    lemma_bytes_split(t.chunks_total as nat, t.total_size as nat, t.remote_done@);
    lemma_chunks_len_sum(t.chunks_total as nat, t.total_size as nat);
    if t.total_size > 0 {
        crate::chunk::lemma_chunk_boundaries(t.total_size as nat);
    }
}

} // verus!
