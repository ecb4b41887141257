use camfc::chunk::CHUNK_SIZE;
use camfc::download::{DownloadStatus, DownloadStep, DownloadTask};
use camfc::transfer::{ChunkVerdict, TransferError};
use camfc::upload::{UploadStatus, UploadStep, UploadTask};

fn remote_bytes(n: usize) -> Vec<u8> {
    let mut x: u32 = 12345;
    (0..n)
        .map(|_| {
            x = x.wrapping_mul(1_103_515_245).wrapping_add(12_345);
            (x >> 16) as u8
        })
        .collect()
}

fn write_at(file: &mut Vec<u8>, off: usize, data: &[u8]) {
    if file.len() < off + data.len() {
        file.resize(off + data.len(), 0);
    }
    file[off..off + data.len()].copy_from_slice(data);
}

/// Runs a download against `remote` into `file`, stopping after
/// `stop_after` chunks if given; returns the number of chunks fetched.
fn run_download(remote: &[u8], file: &mut Vec<u8>, present: Option<u64>, stop_after: Option<usize>) -> usize {
    let mut t = DownloadTask::new("ds/f.bin".to_string(), "f.bin".to_string(), remote.len() as u64);
    let mut step = t.start(present);
    let mut fetched = 0;
    loop {
        match step {
            DownloadStep::Fetch { start, end, .. } => {
                if stop_after == Some(fetched) {
                    return fetched;
                }
                let data = &remote[start as usize..=end as usize];
                write_at(file, start as usize, data);
                fetched += 1;
                step = t.chunk_written();
            }
            DownloadStep::Verify => {
                t.verified(file.len() as u64).unwrap();
                assert!(matches!(t.status, DownloadStatus::Completed));
                return fetched;
            }
            DownloadStep::Stop => panic!("stopped"),
        }
    }
}

#[test]
fn download_walks_chunks_in_order() {
    let mut t = DownloadTask::new("ds/a.bin".to_string(), "a.bin".to_string(), 9_000_000);
    assert!(matches!(t.status, DownloadStatus::Pending));
    assert!(matches!(t.start(None), DownloadStep::Fetch { index: 0, start: 0, end: 4_194_303 }));
    assert!(matches!(t.chunk_written(), DownloadStep::Fetch { index: 1, start: 4_194_304, end: 8_388_607 }));
    assert_eq!(t.downloaded, 4_194_304);
    assert!(matches!(t.chunk_written(), DownloadStep::Fetch { index: 2, start: 8_388_608, end: 8_999_999 }));
    assert!(matches!(t.chunk_written(), DownloadStep::Verify));
    assert_eq!(t.downloaded, 9_000_000);
    let p = t.get_progress();
    assert_eq!((p.chunks_total, p.chunks_completed, p.downloaded), (3, 3, 9_000_000));
    assert!(t.verified(9_000_000).is_ok());
    assert!(matches!(t.status, DownloadStatus::Completed));
    assert!(matches!(t.next_step(), DownloadStep::Stop));
}

#[test]
fn download_resumes_from_chunk_boundary() {
    let mut t = DownloadTask::new("x".to_string(), "x".to_string(), 9_000_000);
    assert!(matches!(t.start(Some(5_000_000)), DownloadStep::Fetch { index: 1, start: 4_194_304, .. }));
    assert_eq!(t.downloaded, CHUNK_SIZE);
    let mut t = DownloadTask::new("x".to_string(), "x".to_string(), 9_000_000);
    assert!(matches!(t.start(Some(20_000_000)), DownloadStep::Verify));
}

#[test]
fn resumed_download_is_byte_identical() {
    let remote = remote_bytes(9_000_000);
    let mut whole = Vec::new();
    assert_eq!(run_download(&remote, &mut whole, None, None), 3);
    assert!(whole == remote);

    let mut partial = Vec::new();
    assert_eq!(run_download(&remote, &mut partial, None, Some(1)), 1);
    assert_eq!(partial.len(), CHUNK_SIZE as usize);
    let present = partial.len() as u64;
    assert_eq!(run_download(&remote, &mut partial, Some(present), None), 2);
    assert!(partial == whole);

    let mut torn = remote[..5_000_000].to_vec();
    assert_eq!(run_download(&remote, &mut torn, Some(5_000_000), None), 2);
    assert!(torn == remote);
}

#[test]
fn chunk_succeeding_on_third_attempt_completes() {
    let mut t = DownloadTask::new("x".to_string(), "x".to_string(), 100);
    assert!(matches!(t.start(None), DownloadStep::Fetch { index: 0, start: 0, end: 99 }));
    assert!(matches!(t.chunk_failed("reset".to_string()), ChunkVerdict::Retry));
    assert!(matches!(t.chunk_failed("reset".to_string()), ChunkVerdict::Retry));
    assert!(matches!(t.chunk_written(), DownloadStep::Verify));
    assert!(t.verified(100).is_ok());
}

#[test]
fn chunk_failing_three_times_aborts() {
    let mut t = DownloadTask::new("x".to_string(), "x".to_string(), 9_000_000);
    t.start(None);
    t.chunk_written();
    assert!(matches!(t.chunk_failed("a".to_string()), ChunkVerdict::Retry));
    assert!(matches!(t.chunk_failed("b".to_string()), ChunkVerdict::Retry));
    match t.chunk_failed("boom".to_string()) {
        ChunkVerdict::Abort(TransferError::DownloadChunkFailed { index, reason }) => {
            assert_eq!(index, 1);
            assert_eq!(reason, "boom");
        }
        other => panic!("unexpected verdict {:?}", other),
    }
    match &t.status {
        DownloadStatus::Error(m) => assert_eq!(m, "分片 1 下载失败: boom"),
        other => panic!("unexpected status {:?}", other),
    }
    assert!(matches!(t.next_step(), DownloadStep::Stop));
}

#[test]
fn size_mismatch_fails_verification() {
    let mut t = DownloadTask::new("x".to_string(), "x".to_string(), 100);
    t.start(None);
    t.chunk_written();
    let e = t.verified(90).unwrap_err();
    assert!(matches!(e, TransferError::IntegrityMismatch { expected: 100, actual: 90 }));
    assert_eq!(e.message(), "文件大小不匹配: 期望 100 字节，实际 90 字节");
    assert!(matches!(t.status, DownloadStatus::Error(_)));
}

#[test]
fn empty_download_needs_no_chunk() {
    let mut t = DownloadTask::new("x".to_string(), "x".to_string(), 0);
    assert!(matches!(t.start(None), DownloadStep::Verify));
    assert!(t.verified(0).is_ok());
}

#[test]
fn pause_is_observed_between_chunks() {
    let mut t = DownloadTask::new("x".to_string(), "x".to_string(), 9_000_000);
    t.start(None);
    t.pause();
    assert!(matches!(t.chunk_written(), DownloadStep::Stop));
    assert!(matches!(t.get_progress().status, DownloadStatus::Paused));
    assert!(matches!(t.start(Some(t.downloaded)), DownloadStep::Fetch { index: 1, .. }));
}

#[test]
fn upload_skips_accepted_chunks_and_finishes() {
    let mut t = UploadTask::new("u1".to_string(), "f.bin".to_string(), 9_000_000, Some("docs".to_string()));
    assert_eq!(t.chunks_total, 3);
    assert!(matches!(t.start(vec![1]), UploadStep::Send { index: 0, start: 0, end: 4_194_303 }));
    assert_eq!(t.uploaded, 4_194_304);
    assert!(matches!(t.chunk_sent(), UploadStep::Send { index: 2, start: 8_388_608, end: 8_999_999 }));
    assert_eq!(t.uploaded, 8_388_608);
    assert!(matches!(t.chunk_sent(), UploadStep::Finish));
    assert_eq!(t.uploaded, 9_000_000);
    let p = t.get_progress();
    assert_eq!((p.chunks_total, p.chunks_completed), (3, 3));
    assert!(t.finished(Ok(())).is_ok());
    assert!(matches!(t.status, UploadStatus::Completed));
}

#[test]
fn upload_already_complete_goes_to_finish() {
    let mut t = UploadTask::new("u".to_string(), "f".to_string(), 9_000_000, None);
    assert!(matches!(t.start(vec![2, 0, 1, 7]), UploadStep::Finish));
    assert_eq!(t.uploaded, 9_000_000);
}

#[test]
fn upload_progress_rounds_down() {
    let mut t = UploadTask::new("u".to_string(), "f".to_string(), 9_000_000, None);
    t.start(vec![2]);
    let p = t.get_progress();
    assert_eq!(p.uploaded, 611_392);
    assert_eq!(p.chunks_completed, 0);
    t.chunk_sent();
    assert_eq!(t.get_progress().chunks_completed, 1);
}

#[test]
fn upload_chunk_failures_and_finish_failure() {
    let mut t = UploadTask::new("u".to_string(), "f".to_string(), 10, None);
    t.start(vec![]);
    assert!(matches!(t.chunk_failed("x".to_string()), ChunkVerdict::Retry));
    assert!(matches!(t.chunk_failed("x".to_string()), ChunkVerdict::Retry));
    match t.chunk_failed("x".to_string()) {
        ChunkVerdict::Abort(e) => {
            assert!(matches!(e, TransferError::UploadChunkFailed { index: 0, .. }));
            assert_eq!(e.message(), "分片 0 上传失败: x");
        }
        other => panic!("unexpected verdict {:?}", other),
    }
    assert!(matches!(t.next_step(), UploadStep::Stop));

    let mut t = UploadTask::new("u".to_string(), "f".to_string(), 10, None);
    t.start(vec![]);
    assert!(matches!(t.chunk_sent(), UploadStep::Finish));
    let e = t.finished(Err("503".to_string())).unwrap_err();
    assert_eq!(e.message(), "完成上传失败: 503");
    match &t.status {
        UploadStatus::Error(m) => assert_eq!(m, "完成上传失败: 503"),
        other => panic!("unexpected status {:?}", other),
    }
    t.pause();
    assert!(matches!(t.next_step(), UploadStep::Stop));
}
