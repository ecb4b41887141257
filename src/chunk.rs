//! Planning of fixed-size, range-addressed chunks.

use vstd::prelude::*;

verus! {

/// Size of one transfer chunk: 4 MiB.
pub const CHUNK_SIZE: u64 = 4194304;

/// Number of chunks of a file of `total` bytes: `ceil(total / CHUNK_SIZE)`.
pub open spec fn chunk_count_of(total: nat) -> nat {
    if total == 0 {
        0
    } else {
        ((total - 1) as nat / CHUNK_SIZE as nat) + 1
    }
}

/// First byte of chunk `i`.
pub open spec fn chunk_start_of(i: nat) -> nat {
    i * CHUNK_SIZE as nat
}

/// One past the last byte of chunk `i` of a file of `total` bytes.
pub open spec fn chunk_limit_of(i: nat, total: nat) -> nat {
    if (i + 1) * CHUNK_SIZE as nat <= total {
        (i + 1) * CHUNK_SIZE as nat
    } else {
        total
    }
}

/// Number of bytes in chunk `i`.
pub open spec fn chunk_len_of(i: nat, total: nat) -> nat {
    (chunk_limit_of(i, total) - chunk_start_of(i)) as nat
}

/// Total length of the first `n` chunks.
pub open spec fn chunks_len_sum(n: nat, total: nat) -> nat
    decreases n,
{
    if n == 0 {
        0
    } else {
        chunks_len_sum((n - 1) as nat, total) + chunk_len_of((n - 1) as nat, total)
    }
}

/// Bytes covered by the first `n` chunks: `min(n * CHUNK_SIZE, total)`.
pub open spec fn covered_by(n: nat, total: nat) -> nat {
    if n * CHUNK_SIZE as nat <= total {
        n * CHUNK_SIZE as nat
    } else {
        total
    }
}

proof fn lemma_chunk_in_file(i: nat, total: nat)
    requires
        i < chunk_count_of(total),
    ensures
        chunk_start_of(i) < total,
        chunk_start_of(i) < chunk_limit_of(i, total),
        (i + 1 == chunk_count_of(total)) <==> (chunk_limit_of(i, total) == total),
        i + 1 < chunk_count_of(total) ==> chunk_limit_of(i, total) < total,
{
}

/// Number of chunks of a file of `total` bytes.
pub fn chunk_count(total: u64) -> (r: u64)
    ensures
        r == chunk_count_of(total as nat),
{
    if total == 0 {
        0
    } else {
        (total - 1) / CHUNK_SIZE + 1
    }
}

/// Inclusive byte range `(start, end)` of chunk `index` of a file of `total`
/// bytes. Every chunk but the last ends at `start + CHUNK_SIZE - 1`; the last
/// one ends at `total - 1`.
pub fn chunk_range(index: u64, total: u64) -> (r: (u64, u64))
    requires
        index < chunk_count_of(total as nat),
    ensures
        r.0 == chunk_start_of(index as nat),
        r.1 + 1 == chunk_limit_of(index as nat, total as nat),
        r.0 <= r.1 < total,
{
    proof {
        lemma_chunk_in_file(index as nat, total as nat);
    }
    let count = chunk_count(total);
    let start = index * CHUNK_SIZE;
    let end = if index == count - 1 {
        total - 1
    } else {
        start + CHUNK_SIZE - 1
    };
    (start, end)
}

/// Chunk at which a transfer resumes when `present` bytes are already on
/// disk: the last whole-chunk boundary at or below `present`.
pub fn resume_chunk(present: u64) -> (r: u64)
    ensures
        r == present as nat / CHUNK_SIZE as nat,
        chunk_start_of(r as nat) <= present,
        present < chunk_start_of(r as nat + 1),
{
    present / CHUNK_SIZE
}

/// The first `n` chunks cover `min(n * CHUNK_SIZE, total)` bytes.
pub proof fn lemma_chunks_len_sum(n: nat, total: nat)
    requires
        n <= chunk_count_of(total),
    ensures
        chunks_len_sum(n, total) == covered_by(n, total),
    decreases n,
{
    if n > 0 {
        lemma_chunks_len_sum((n - 1) as nat, total);
        lemma_chunk_in_file((n - 1) as nat, total);
    }
}

/// Chunk boundaries: for a non-empty file the last chunk ends at byte
/// `total - 1`, and the lengths of all chunks add up to `total`.
pub proof fn lemma_chunk_boundaries(total: nat)
    requires
        total > 0,
    ensures
        chunk_count_of(total) > 0,
        chunk_limit_of((chunk_count_of(total) - 1) as nat, total) == total,
        chunks_len_sum(chunk_count_of(total), total) == total,
{
    let n = chunk_count_of(total);
    lemma_chunk_in_file((n - 1) as nat, total);
    lemma_chunks_len_sum(n, total);
}

} // verus!
