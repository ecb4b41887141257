//! What download and upload share: the per-chunk retry policy and the
//! errors that end a transfer.

use vstd::prelude::*;
use crate::text::{append_decimal, dec};

verus! {

/// Attempts made on one chunk before the transfer is given up.
pub const MAX_CHUNK_ATTEMPTS: u32 = 3;

/// Why a transfer stopped with an error.
#[derive(Clone, Debug)]
pub enum TransferError {
    /// Downloading chunk `index` failed on every attempt; `reason` is the
    /// last failure.
    DownloadChunkFailed { index: u64, reason: String },
    /// Uploading chunk `index` failed on every attempt; `reason` is the last
    /// failure.
    UploadChunkFailed { index: u64, reason: String },
    /// The finished file does not have the expected length.
    IntegrityMismatch { expected: u64, actual: u64 },
    /// The remote endpoint refused to assemble the uploaded chunks.
    FinishFailed(String),
}

/// Decision after an attempt on a chunk failed.
#[derive(Debug)]
pub enum ChunkVerdict {
    /// Wait briefly and try the same chunk again.
    Retry,
    /// Give the transfer up.
    Abort(TransferError),
}

/// Text of a transfer error, as kept in a failed task's status.
pub open spec fn error_text(e: TransferError) -> Seq<char> {
    match e {
        TransferError::DownloadChunkFailed { index, reason } =>
            "分片 "@ + dec(index as nat) + " 下载失败: "@ + reason@,
        TransferError::UploadChunkFailed { index, reason } =>
            "分片 "@ + dec(index as nat) + " 上传失败: "@ + reason@,
        TransferError::IntegrityMismatch { expected, actual } =>
            "文件大小不匹配: 期望 "@ + dec(expected as nat) + " 字节，实际 "@ + dec(actual as nat) + " 字节"@,
        TransferError::FinishFailed(reason) => "完成上传失败: "@ + reason@,
    }
}

impl TransferError {
    /// One-line description of the error.
    pub fn message(&self) -> (r: String)
        ensures
            r@ == error_text(*self),
    {
        match self {
            TransferError::DownloadChunkFailed { index, reason } => {
                let mut s = String::from_str("分片 ");
                append_decimal(&mut s, *index);
                s.append(" 下载失败: ");
                s.append(reason.as_str());
                s
            },
            TransferError::UploadChunkFailed { index, reason } => {
                let mut s = String::from_str("分片 ");
                append_decimal(&mut s, *index);
                s.append(" 上传失败: ");
                s.append(reason.as_str());
                s
            },
            TransferError::IntegrityMismatch { expected, actual } => {
                let mut s = String::from_str("文件大小不匹配: 期望 ");
                append_decimal(&mut s, *expected);
                s.append(" 字节，实际 ");
                append_decimal(&mut s, *actual);
                s.append(" 字节");
                s
            },
            TransferError::FinishFailed(reason) => {
                let mut s = String::from_str("完成上传失败: ");
                s.append(reason.as_str());
                s
            },
        }
    }
}

/// After `failed` failed attempts on a chunk, whether another is made.
pub open spec fn may_retry(failed: nat) -> bool {
    failed < MAX_CHUNK_ATTEMPTS
}

/// Copy of a string with the same characters.
pub(crate) fn copy_text(s: &String) -> (r: String)
    ensures
        r@ == s@,
{
    s.clone()
}

} // verus!
