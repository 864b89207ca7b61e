//! Persistent records of backup jobs: target drives, jobs, and the
//! append-only status log.
//!
//! A `Job` is one backup episode, created for one device attach.  Its state
//! transitions are never written in place: each is appended to the status
//! log, and the job's current status is by definition the status of the
//! newest log entry.

use vstd::prelude::*;

verus! {

/// The closed set of status tags a job moves through.
#[derive(Debug, Clone, Copy, PartialEq, Eq, Structural)]
pub enum JobStatus {
    /// Accepted, not yet producing bytes.
    Ready,
    /// The copy is running.
    InProgress,
    /// Bytes written, verification pending.
    CopyComplete,
    /// The destination is being re-hashed.
    Verifying,
    /// Terminal: the backup succeeded.
    Complete,
    /// Terminal: the backup failed.
    Failed,
}

impl JobStatus {
    /// `Complete` and `Failed` end a job; nothing is recorded after them.
    pub open spec fn is_terminal(self) -> bool {
        self == JobStatus::Complete || self == JobStatus::Failed
    }

    /// Executable mirror of `is_terminal`.
    pub fn terminal(&self) -> (r: bool)
        ensures
            r == self.is_terminal(),
    {
        match self {
            JobStatus::Complete => true,
            JobStatus::Failed => true,
            _ => false,
        }
    }

    /// The tag's name, as it is persisted and served to clients.
    pub fn as_str(&self) -> (r: &'static str)
        ensures
            self == JobStatus::Ready ==> r@ == "ready"@,
            self == JobStatus::InProgress ==> r@ == "in_progress"@,
            self == JobStatus::CopyComplete ==> r@ == "copy_complete"@,
            self == JobStatus::Verifying ==> r@ == "verifying"@,
            self == JobStatus::Complete ==> r@ == "complete"@,
            self == JobStatus::Failed ==> r@ == "failed"@,
    {
        match self {
            JobStatus::Ready => "ready",
            JobStatus::InProgress => "in_progress",
            JobStatus::CopyComplete => "copy_complete",
            JobStatus::Verifying => "verifying",
            JobStatus::Complete => "complete",
            JobStatus::Failed => "failed",
        }
    }
}

/// A removable drive the daemon has backed up, keyed by its volume id.
#[derive(Debug, Clone)]
pub struct TargetDrive {
    pub uuid: String,
    pub label: String,
    pub mount_path: String,
    pub raw_size: u64,
}

/// One backup episode.
#[derive(Debug, Clone)]
pub struct Job {
    /// Time-ordered unique identifier.
    pub id: String,
    /// The drive this job backs up.
    pub target_id: String,
    /// Where the backup is written.
    pub destination_path: Option<String>,
    pub created_at: String,
    /// Derived: always the status of the newest log entry.
    pub status: JobStatus,
}

/// One entry of the append-only status log.
#[derive(Debug, Clone)]
pub struct JobStatusEntry {
    pub id: String,
    pub status: JobStatus,
    pub description: Option<String>,
    pub total_bytes: Option<u64>,
    pub duration_secs: Option<u64>,
    pub created_at: String,
}

/// A job together with its full status history, oldest entry first.
#[derive(Debug, Clone)]
pub struct JobWithHistory {
    pub job: Job,
    pub history: Vec<JobStatusEntry>,
}

} // verus!
