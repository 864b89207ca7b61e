//! The native copy engine's planning, progress and failure behaviour.

use bksd::copy::{
    copy_from_reads, error_summary, CopyError, CopyRun, FileCopy, FileCopyError, Scanner,
    ScanFile, SourceRead, PROGRESS_UPDATE_INTERVAL,
};
use bksd::status::{percentage, TransferStatus};
use bksd::transfer::{check_destination, NativeCopyEngine};

fn content_read(bytes: &[u8]) -> SourceRead {
    SourceRead::Content(bytes.to_vec())
}

fn scan_file(path: &str, size: u64) -> ScanFile {
    ScanFile {
        relative_path: path.to_string(),
        size,
    }
}

#[test]
fn percentage_boundaries() {
    // A total of zero counts as fully copied, as does the last byte.
    assert_eq!(percentage(0, 0), 100);
    assert_eq!(percentage(0, 10), 0);
    assert_eq!(percentage(5, 10), 50);
    assert_eq!(percentage(10, 10), 100);
    assert_eq!(percentage(1, 3), 33);
    assert_eq!(percentage(11251, 11251), 100);
}

#[test]
fn percentage_is_monotonic_along_a_stream() {
    let total = 1_000_000u64;
    let mut last = 0u8;
    for copied in [0u64, 1, 999, 500_000, 750_000, 999_999, 1_000_000] {
        let pct = percentage(copied, total);
        assert!(pct >= last);
        assert!(pct <= 100);
        last = pct;
    }
}

#[test]
fn scanner_totals_sizes() {
    let mut scanner = Scanner::new();
    scanner.record_dir("d".to_string());
    scanner.record_file("file1.txt".to_string(), 5);
    scanner.record_file("file2.txt".to_string(), 8);
    scanner.record_file("subdir/nested.txt".to_string(), 6);
    assert_eq!(scanner.files.len(), 3);
    assert_eq!(scanner.directories.len(), 1);
    assert_eq!(scanner.total_bytes, 5 + 8 + 6);
}

#[test]
fn scanner_empty() {
    let scanner = Scanner::new();
    assert!(scanner.files.is_empty());
    assert!(scanner.directories.is_empty());
    assert_eq!(scanner.total_bytes, 0);
}

#[test]
fn file_copy_fingerprints_streamed_chunks() {
    let mut fc = FileCopy::new();
    fc.push_chunk(b"hello ");
    fc.push_chunk(b"world");
    assert_eq!(fc.bytes(), 11);
    let fh = fc.finish("a.txt".to_string());
    assert_eq!(fh.relative_path, "a.txt");
    assert_eq!(fh.size, 11);
    assert_eq!(&fh.hash, blake3::hash(b"hello world").as_bytes());
}

#[test]
fn copy_happy_path_yields_one_hash_per_file() {
    // Source {a.txt = "hello world" (11 B), d/b.bin = 10 KiB of 0xAB}.
    let blob = vec![0xABu8; 10240];
    let files = vec![scan_file("a.txt", 11), scan_file("d/b.bin", 10240)];
    let reads = vec![content_read(b"hello world"), content_read(&blob)];
    let (outcome, progress) = copy_from_reads(&files, &reads, 11 + 10240);
    let (bytes, hashes) = outcome.expect("copy should succeed");
    assert_eq!(bytes, 11 + 10240);
    assert_eq!(hashes.len(), 2);
    assert_eq!(hashes[0].relative_path, "a.txt");
    assert_eq!(&hashes[0].hash, blake3::hash(b"hello world").as_bytes());
    assert_eq!(hashes[0].size, 11);
    assert_eq!(hashes[1].relative_path, "d/b.bin");
    assert_eq!(&hashes[1].hash, blake3::hash(&blob).as_bytes());
    assert_eq!(hashes[1].size, 10240);
    // The transfer's last byte always emits a progress tag at 100 %.
    assert!(!progress.is_empty());
    match progress.last().unwrap() {
        TransferStatus::InProgress {
            percentage: pct,
            bytes_copied,
            ..
        } => {
            assert_eq!(*pct, 100);
            assert_eq!(*bytes_copied, 11 + 10240);
        }
        other => panic!("expected InProgress, got {:?}", other),
    }
}

#[test]
fn copy_empty_source() {
    let files: Vec<ScanFile> = Vec::new();
    let reads: Vec<SourceRead> = Vec::new();
    let (outcome, progress) = copy_from_reads(&files, &reads, 0);
    let (bytes, hashes) = outcome.expect("empty copy succeeds");
    assert_eq!(bytes, 0);
    assert!(hashes.is_empty());
    assert!(progress.is_empty());
}

#[test]
fn copy_progress_percentages_never_decrease() {
    // Many small files around the 1 MiB reporting interval.
    let chunk = vec![7u8; (PROGRESS_UPDATE_INTERVAL / 2) as usize];
    let mut files = Vec::new();
    let mut reads = Vec::new();
    for i in 0..8 {
        files.push(scan_file(&format!("f{}", i), chunk.len() as u64));
        reads.push(content_read(&chunk));
    }
    let total = (chunk.len() * 8) as u64;
    let (outcome, progress) = copy_from_reads(&files, &reads, total);
    assert!(outcome.is_ok());
    assert!(progress.len() >= 2);
    let mut last = 0u8;
    for tag in &progress {
        match tag {
            TransferStatus::InProgress {
                percentage: pct, ..
            } => {
                assert!(*pct >= last);
                assert!(*pct <= 100);
                last = *pct;
            }
            other => panic!("expected InProgress, got {:?}", other),
        }
    }
}

#[test]
fn copy_aborts_on_device_removal_mid_transfer() {
    // An EIO surfaces while reading the 4th file: the whole transfer fails
    // with the removal message naming that file.
    let files = vec![
        scan_file("f1", 3),
        scan_file("f2", 3),
        scan_file("f3", 3),
        scan_file("f4", 3),
        scan_file("f5", 3),
    ];
    let reads = vec![
        content_read(b"one"),
        content_read(b"two"),
        content_read(b"thr"),
        SourceRead::Failure(FileCopyError {
            message: "Failed to read from source: Input/output error (os error 5)".to_string(),
            is_device_removed: true,
        }),
        content_read(b"fiv"),
    ];
    let (outcome, _) = copy_from_reads(&files, &reads, 15);
    let err = outcome.expect_err("removal aborts the transfer");
    assert_eq!(err, "Device removed during transfer at file: f4");
    assert!(err.contains("Device removed"));
}

#[test]
fn copy_collects_non_removal_errors() {
    let files = vec![scan_file("ok.txt", 2), scan_file("bad.txt", 2)];
    let reads = vec![
        content_read(b"ok"),
        SourceRead::Failure(FileCopyError {
            message: "Failed to open source file: permission denied".to_string(),
            is_device_removed: false,
        }),
    ];
    let (outcome, _) = copy_from_reads(&files, &reads, 4);
    let err = outcome.expect_err("collected errors fail the transfer");
    assert_eq!(
        err,
        "Transfer completed with 1 error(s):\n  - bad.txt: Failed to open source file: permission denied"
    );
}

#[test]
fn error_summary_truncates_after_ten() {
    let mut errors = Vec::new();
    for i in 0..13 {
        errors.push(CopyError {
            file: format!("f{}", i),
            message: "boom".to_string(),
        });
    }
    let msg = error_summary(&errors);
    assert!(msg.contains("Transfer completed with 13 error(s):"));
    assert!(msg.contains("f0"));
    assert!(msg.contains("f9"));
    assert!(!msg.contains("f10"));
    assert!(msg.contains("... and 3 more errors"));
}

#[test]
fn refuses_existing_destination() {
    let err = check_destination("/backups/SD/2026-01-01_T0101_01", true)
        .expect_err("an existing destination is refused");
    assert!(err.contains("already exists"));
    assert!(err.contains("/backups/SD/2026-01-01_T0101_01"));
    assert!(check_destination("/backups/SD/2026-01-01_T0101_01", false).is_ok());
}

#[test]
fn native_engine_defaults_to_syncing() {
    let engine = NativeCopyEngine::default();
    assert!(engine.sync_files);
}

#[test]
fn copy_run_emits_on_interval_and_last_byte() {
    let mut run = CopyRun::new(PROGRESS_UPDATE_INTERVAL * 2);
    let mut fc = FileCopy::new();
    fc.push_chunk(&vec![1u8; 1000]);
    let small = fc.finish("small".to_string());
    assert!(run.file_copied(small, "small").is_none());

    let mut fc2 = FileCopy::new();
    fc2.push_chunk(&vec![2u8; PROGRESS_UPDATE_INTERVAL as usize]);
    let big = fc2.finish("big".to_string());
    let tag = run.file_copied(big, "big").expect("a mebibyte is due");
    match tag {
        TransferStatus::InProgress {
            bytes_copied,
            current_file,
            ..
        } => {
            assert_eq!(bytes_copied, 1000 + PROGRESS_UPDATE_INTERVAL);
            assert_eq!(current_file, "big");
        }
        other => panic!("expected InProgress, got {:?}", other),
    }
}
