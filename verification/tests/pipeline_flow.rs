//! Job lifecycles: creation, the consumer's transitions, the status log and
//! the progress registry.

use bksd::hardware::BlockDevice;
use bksd::history::JobHistory;
use bksd::models::{JobStatus, JobStatusEntry};
use bksd::store::JobStore;
use bksd::pipeline::{after_transfer, after_verification, completion_status, ConsumerAction,
    JobPipeline};
use bksd::progress::ProgressTracker;
use bksd::status::TransferStatus;
use bksd::transfer::{FileHash, TransferResult};
use bksd::verify::VerifyResult;

fn test_device(uuid: &str) -> BlockDevice {
    BlockDevice {
        uuid: uuid.to_string(),
        label: format!("TEST_DEVICE_{}", uuid),
        path: format!("/tmp/test_{}", uuid),
        mount_point: format!("/tmp/mnt_{}", uuid),
        capacity: 64 * 1024 * 1024 * 1024,
        filesystem: "ext4".to_string(),
    }
}

fn in_progress(copied: u64, total: u64, pct: u8) -> TransferStatus {
    TransferStatus::InProgress {
        total_bytes: total,
        bytes_copied: copied,
        current_file: "test.txt".to_string(),
        percentage: pct,
        eta_seconds: None,
    }
}

#[test]
fn create_opens_log_with_ready() {
    let dev = test_device("uuid-1");
    let (pipeline, drive) = JobPipeline::create(&dev, "/backups");
    assert_eq!(pipeline.job.status, JobStatus::Ready);
    assert_eq!(pipeline.history.len(), 1);
    assert_eq!(pipeline.history.entry_at(0).status, JobStatus::Ready);
    assert_eq!(pipeline.job.id.len(), 36);
    assert_eq!(drive.uuid, "uuid-1");
    assert_eq!(drive.label, "TEST_DEVICE_uuid-1");
    assert_eq!(drive.raw_size, 64 * 1024 * 1024 * 1024);
    let dest = pipeline.job.destination_path.clone().unwrap();
    assert!(dest.starts_with("/backups/TEST_DEVICE_uuid-1/"));
}

#[test]
fn happy_path_status_flow() {
    // ready → in_progress* → copy_complete → verifying* → complete, with the
    // registry emptied at the terminal tag.
    let dev = test_device("happy");
    let (mut pipeline, _) = JobPipeline::create(&dev, "/backups");
    let mut registry = ProgressTracker::new();
    let job_id = pipeline.job.id.clone();

    pipeline.consume(&mut registry, TransferStatus::Ready);
    assert_eq!(registry.active_count(), 1);

    pipeline.consume(&mut registry, in_progress(5000, 11251, 44));
    pipeline.consume(&mut registry, in_progress(11251, 11251, 100));

    let actions = pipeline.consume(&mut registry, TransferStatus::CopyComplete);
    assert_eq!(actions.len(), 1);
    assert!(matches!(
        actions[0],
        ConsumerAction::PersistStatus {
            status: JobStatus::CopyComplete,
            ..
        }
    ));
    assert_eq!(pipeline.history.len(), 2);

    pipeline.consume(&mut registry, TransferStatus::Verifying { current: 1, total: 2 });
    pipeline.consume(&mut registry, TransferStatus::Verifying { current: 2, total: 2 });

    let actions = pipeline.consume(
        &mut registry,
        TransferStatus::Complete {
            total_bytes: 11251,
            duration_secs: 1,
        },
    );
    assert!(pipeline.finished);
    assert_eq!(pipeline.job.status, JobStatus::Complete);
    assert_eq!(actions.len(), 3);
    assert!(matches!(
        actions[0],
        ConsumerAction::PersistStatus {
            status: JobStatus::Complete,
            total_bytes: Some(11251),
            duration_secs: Some(1),
            ..
        }
    ));
    assert!(matches!(actions[1], ConsumerAction::Notify(_)));
    assert!(matches!(actions[2], ConsumerAction::CleanupDevice));

    // Terminal: the registry no longer tracks the job.
    assert_eq!(registry.active_count(), 0);
    assert!(registry.get(&job_id).is_none());

    // The log holds ready, copy_complete, complete: at least two entries,
    // exactly one of them terminal, and the newest one is the current status.
    assert_eq!(pipeline.history.len(), 3);
    let mut terminal_entries = 0;
    for i in 0..pipeline.history.len() {
        let e = pipeline.history.entry_at(i);
        if e.status == JobStatus::Complete || e.status == JobStatus::Failed {
            terminal_entries += 1;
        }
    }
    assert_eq!(terminal_entries, 1);
    assert_eq!(pipeline.history.current_status(), JobStatus::Complete);
}

#[test]
fn failed_job_logs_message_and_clears_registry() {
    let dev = test_device("failing");
    let (mut pipeline, _) = JobPipeline::create(&dev, "/backups");
    let mut registry = ProgressTracker::new();
    let job_id = pipeline.job.id.clone();

    pipeline.consume(&mut registry, TransferStatus::Ready);
    pipeline.consume(&mut registry, in_progress(100, 1000, 10));
    assert_eq!(registry.active_count(), 1);

    let actions = pipeline.consume(
        &mut registry,
        TransferStatus::Failed("Device removed during transfer at file: f4".to_string()),
    );
    assert!(pipeline.finished);
    assert_eq!(pipeline.job.status, JobStatus::Failed);
    assert_eq!(actions.len(), 2);
    match &actions[0] {
        ConsumerAction::PersistStatus {
            status,
            description,
            ..
        } => {
            assert_eq!(*status, JobStatus::Failed);
            assert!(description.as_ref().unwrap().contains("Device removed"));
        }
        _ => panic!("expected PersistStatus"),
    }
    assert!(registry.get(&job_id).is_none());
    assert_eq!(registry.active_count(), 0);
    // ready + failed: the minimum for a terminal job.
    assert_eq!(pipeline.history.len(), 2);
}

#[test]
fn concurrent_jobs_share_the_registry() {
    // Two attaches with distinct volume ids: both run, the registry briefly
    // holds two entries, and both complete.
    let (mut p1, _) = JobPipeline::create(&test_device("uuid-a"), "/backups");
    let (mut p2, _) = JobPipeline::create(&test_device("uuid-b"), "/backups");
    assert_ne!(p1.job.id, p2.job.id);
    let mut registry = ProgressTracker::new();

    p1.consume(&mut registry, TransferStatus::Ready);
    p2.consume(&mut registry, TransferStatus::Ready);
    assert_eq!(registry.active_count(), 2);

    p1.consume(&mut registry, in_progress(10, 100, 10));
    p2.consume(&mut registry, in_progress(60, 100, 60));
    assert_eq!(registry.active_count(), 2);
    match registry.get(&p2.job.id) {
        Some(TransferStatus::InProgress { percentage, .. }) => assert_eq!(*percentage, 60),
        other => panic!("expected p2 in progress, got {:?}", other),
    }

    p1.consume(
        &mut registry,
        TransferStatus::Complete {
            total_bytes: 100,
            duration_secs: 1,
        },
    );
    assert_eq!(registry.active_count(), 1);
    assert!(registry.get(&p1.job.id).is_none());
    assert!(registry.get(&p2.job.id).is_some());

    p2.consume(
        &mut registry,
        TransferStatus::Complete {
            total_bytes: 100,
            duration_secs: 2,
        },
    );
    assert_eq!(registry.active_count(), 0);
    assert!(p1.finished && p2.finished);
    assert_eq!(p1.job.status, JobStatus::Complete);
    assert_eq!(p2.job.status, JobStatus::Complete);
}

#[test]
fn registry_never_holds_terminal_statuses() {
    let (mut pipeline, _) = JobPipeline::create(&test_device("live"), "/backups");
    let mut registry = ProgressTracker::new();
    pipeline.consume(&mut registry, TransferStatus::Ready);
    pipeline.consume(&mut registry, in_progress(1, 2, 50));
    for i in 0..registry.active_count() {
        let status = registry.status_at(i);
        assert!(!status.terminal());
    }
    pipeline.consume(
        &mut registry,
        TransferStatus::Failed("gone".to_string()),
    );
    assert_eq!(registry.active_count(), 0);
}

#[test]
fn test_progress_tracker_basic_operations() {
    let mut tracker = ProgressTracker::new();

    assert_eq!(tracker.active_count(), 0);
    assert!(tracker.get("job-1").is_none());

    tracker.update("job-1", in_progress(500, 1000, 50));
    assert_eq!(tracker.active_count(), 1);
    match tracker.get("job-1") {
        Some(TransferStatus::InProgress { percentage, .. }) => assert_eq!(*percentage, 50),
        _ => panic!("Expected InProgress status"),
    }

    tracker.update("job-1", in_progress(750, 1000, 75));
    assert_eq!(tracker.active_count(), 1);
    match tracker.get("job-1") {
        Some(TransferStatus::InProgress { percentage, .. }) => assert_eq!(*percentage, 75),
        _ => panic!("Expected InProgress status"),
    }

    tracker.remove("job-1");
    assert_eq!(tracker.active_count(), 0);
    assert!(tracker.get("job-1").is_none());
}

#[test]
fn test_progress_tracker_multiple_jobs() {
    let mut tracker = ProgressTracker::new();

    tracker.update("job-1", TransferStatus::Ready);
    tracker.update(
        "job-2",
        TransferStatus::InProgress {
            total_bytes: 1000,
            bytes_copied: 500,
            current_file: "file.txt".to_string(),
            percentage: 50,
            eta_seconds: None,
        },
    );
    tracker.update("job-3", TransferStatus::CopyComplete);

    assert_eq!(tracker.active_count(), 3);
    assert!(tracker.get("job-1").is_some());
    assert!(tracker.get("job-2").is_some());
    assert!(tracker.get("job-3").is_some());
}

#[test]
fn producer_decisions() {
    let with_hashes = TransferResult {
        total_bytes: 42,
        duration_secs: 3,
        file_hashes: Some(vec![FileHash {
            relative_path: "a".to_string(),
            hash: [0u8; 32],
            size: 42,
        }]),
    };
    let without_hashes = TransferResult {
        total_bytes: 42,
        duration_secs: 3,
        file_hashes: None,
    };

    let (tag, verify) = after_transfer(&Ok(with_hashes.clone()), true, false);
    assert!(matches!(tag, TransferStatus::CopyComplete));
    assert!(verify);

    // Engines without hashes, simulations, and disabled verification all
    // skip the verifier.
    let (_, verify) = after_transfer(&Ok(without_hashes.clone()), true, false);
    assert!(!verify);
    let (_, verify) = after_transfer(&Ok(with_hashes.clone()), true, true);
    assert!(!verify);
    let (_, verify) = after_transfer(&Ok(with_hashes.clone()), false, false);
    assert!(!verify);

    let (tag, verify) = after_transfer(&Err("boom".to_string()), true, false);
    match tag {
        TransferStatus::Failed(m) => assert_eq!(m, "boom"),
        other => panic!("expected Failed, got {:?}", other),
    }
    assert!(!verify);

    match completion_status(&with_hashes) {
        TransferStatus::Complete {
            total_bytes,
            duration_secs,
        } => {
            assert_eq!(total_bytes, 42);
            assert_eq!(duration_secs, 3);
        }
        other => panic!("expected Complete, got {:?}", other),
    }

    let ok: Result<VerifyResult, String> = Ok(VerifyResult {
        files_verified: 1,
        bytes_verified: 42,
    });
    assert!(matches!(
        after_verification(&with_hashes, &ok),
        TransferStatus::Complete { .. }
    ));
    let bad: Result<VerifyResult, String> =
        Err("Verification failed: 1 file(s) did not match".to_string());
    match after_verification(&with_hashes, &bad) {
        TransferStatus::Failed(m) => assert!(m.contains("did not match")),
        other => panic!("expected Failed, got {:?}", other),
    }
}

fn entry(id: &str, status: JobStatus) -> JobStatusEntry {
    JobStatusEntry {
        id: id.to_string(),
        status,
        description: None,
        total_bytes: None,
        duration_secs: None,
        created_at: "2026-01-01_T0101_01".to_string(),
    }
}

#[test]
fn store_keeps_status_as_newest_entry() {
    let mut store = JobStore::new();
    let (pipeline, drive) = JobPipeline::create(&test_device("stored"), "/backups");
    let job_id = pipeline.job.id.clone();
    let history = JobHistory::start(entry("e0", JobStatus::Ready));
    let mut job = pipeline.job.clone();
    job.status = JobStatus::Ready;
    store.create(drive, job, history);
    assert_eq!(store.count(), 1);

    // Current status follows the newest appended entry.
    assert!(store.update_status(&job_id, entry("e1", JobStatus::CopyComplete)));
    assert_eq!(store.get(&job_id).unwrap().status, JobStatus::CopyComplete);
    assert!(store.update_status(&job_id, entry("e2", JobStatus::Complete)));
    let (job, history) = store.get_with_history(&job_id).unwrap();
    assert_eq!(job.status, JobStatus::Complete);
    assert_eq!(history.len(), 3);
    assert_eq!(
        history.entry_at(history.len() - 1).status,
        job.status
    );

    // A terminal entry closes the log: nothing lands after it.
    assert!(!store.update_status(&job_id, entry("e3", JobStatus::Failed)));
    assert_eq!(store.get_with_history(&job_id).unwrap().1.len(), 3);

    // Unknown jobs are left untouched.
    assert!(!store.update_status("no-such-job", entry("e4", JobStatus::Ready)));
    assert!(store.get("no-such-job").is_none());
}

#[test]
fn store_upserts_targets_and_lists_newest_first() {
    let mut store = JobStore::new();
    let dev = test_device("drive-1");

    // Three attaches of the same drive: three jobs, one target row that
    // keeps its size and takes the fresh label and mount path.
    let (p1, mut d1) = JobPipeline::create(&dev, "/backups");
    d1.raw_size = 1000;
    store.create(d1, p1.job.clone(), JobHistory::start(entry("a0", JobStatus::Ready)));

    let (p2, mut d2) = JobPipeline::create(&dev, "/backups");
    d2.label = "RELABELLED".to_string();
    d2.raw_size = 2000;
    store.create(d2, p2.job.clone(), JobHistory::start(entry("b0", JobStatus::Ready)));

    let (p3, d3) = JobPipeline::create(&dev, "/backups");
    store.create(d3, p3.job.clone(), JobHistory::start(entry("c0", JobStatus::Ready)));

    assert_eq!(store.count(), 3);
    // The upsert replaced label and mount path but kept the first row's size.
    let target = store.target("drive-1").expect("the drive is stored once");
    assert_eq!(target.label, "TEST_DEVICE_drive-1");
    assert_eq!(target.mount_path, "/tmp/mnt_drive-1");
    assert_eq!(target.raw_size, 1000);
    assert!(store.target("drive-2").is_none());

    // Close the first two jobs, leave the third open.
    assert!(store.update_status(&p1.job.id, entry("a1", JobStatus::Complete)));
    assert!(store.update_status(&p2.job.id, entry("b1", JobStatus::Failed)));

    // Newest first, unfiltered.
    let all = store.list(50, 0, None);
    assert_eq!(all.len(), 3);
    assert_eq!(all[0].id, p3.job.id);
    assert_eq!(all[1].id, p2.job.id);
    assert_eq!(all[2].id, p1.job.id);

    // Filtered by status.
    let complete = store.list(50, 0, Some(JobStatus::Complete));
    assert_eq!(complete.len(), 1);
    assert_eq!(complete[0].id, p1.job.id);

    // Pagination.
    let page = store.list(1, 1, None);
    assert_eq!(page.len(), 1);
    assert_eq!(page[0].id, p2.job.id);
    let beyond = store.list(10, 3, None);
    assert!(beyond.is_empty());
}

#[test]
fn job_ids_are_fresh_and_hyphenated() {
    let a = bksd::ids::new_uuid_string();
    let b = bksd::ids::new_uuid_string();
    assert_eq!(a.len(), 36);
    assert_eq!(b.len(), 36);
    assert_ne!(a, b);
    assert_eq!(a.matches('-').count(), 4);
}

#[test]
fn timestamps_have_the_dated_directory_shape() {
    let t = bksd::ids::local_timestamp();
    assert_eq!(t.len(), 19);
    assert!(t.contains("_T"));
}
