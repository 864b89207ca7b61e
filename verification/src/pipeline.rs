//! Per-job orchestration: what happens on a device attach and what the
//! consumer of a job's progress stream must do at every tag.
//!
//! Each accepted attach creates one job.  Two cooperating tasks then run: a
//! producer (the transfer engine, then the verifier) pushes `TransferStatus`
//! tags into a channel, and a consumer drains them in order.  The consumer is
//! the only place where durable state, the in-memory progress registry,
//! notifications and device cleanup are ordered against each other; its
//! decisions are the functions of this module.  The channels, tasks and I/O
//! around them live outside the library.

use vstd::prelude::*;
use crate::hardware::BlockDevice;
use crate::history::JobHistory;
use crate::ids::{local_timestamp, new_uuid_string};
use crate::models::{Job, JobStatus, JobStatusEntry, TargetDrive};
use crate::notify::JobEvent;
use crate::ownership::FileOwner;
use crate::progress::ProgressTracker;
use crate::status::TransferStatus;
use crate::text::join_path;
use crate::transfer::{TransferRequest, TransferResult};
use crate::verify::VerifyResult;

verus! {

/// What the consumer asks the surrounding process to perform after one tag.
pub enum ConsumerAction {
    /// Append this transition to the persistent status log.
    PersistStatus {
        status: JobStatus,
        description: Option<String>,
        total_bytes: Option<u64>,
        duration_secs: Option<u64>,
    },
    /// Hand this event to the configured notification channel, detached.
    Notify(JobEvent),
    /// Sync and unmount the device this job was backing up.
    CleanupDevice,
}

/// The `JobStatus` tag a stream tag is persisted under.
pub open spec fn spec_tag_of(s: TransferStatus) -> JobStatus {
    match s {
        TransferStatus::Ready => JobStatus::Ready,
        TransferStatus::InProgress { .. } => JobStatus::InProgress,
        TransferStatus::CopyComplete => JobStatus::CopyComplete,
        TransferStatus::Verifying { .. } => JobStatus::Verifying,
        TransferStatus::Complete { .. } => JobStatus::Complete,
        TransferStatus::Failed(_) => JobStatus::Failed,
    }
}

/// One entry was appended: the log grew by exactly this transition.
pub open spec fn spec_appended(
    before: JobHistory,
    after: JobHistory,
    status: JobStatus,
    description: Option<String>,
    total_bytes: Option<u64>,
    duration_secs: Option<u64>,
) -> bool {
    &&& after.view_entries().len() == before.view_entries().len() + 1
    &&& after.view_entries().drop_last() == before.view_entries()
    &&& after.view_entries().last().status == status
    &&& after.view_entries().last().description == description
    &&& after.view_entries().last().total_bytes == total_bytes
    &&& after.view_entries().last().duration_secs == duration_secs
}

/// Every job the registry still tracks is live: its latest status is
/// non-terminal.
pub open spec fn spec_registry_live(r: ProgressTracker) -> bool {
    forall|id: Seq<char>|
        r.has_job(id) ==> !(#[trigger] r.job_status(id)).is_terminal()
}

/// One job's pipeline state: the job row, its status log, and which device
/// it serves.
pub struct JobPipeline {
    pub job: Job,
    pub device_uuid: String,
    pub device_label: String,
    pub history: JobHistory,
    /// Set once a terminal tag was consumed; the consumer then stops.
    pub finished: bool,
}

impl JobPipeline {
    /// The log is well formed, the derived job status is the newest entry's
    /// status, and `finished` says exactly whether the log is closed.
    pub open spec fn wf(self) -> bool {
        &&& self.history.wf()
        &&& (self.finished <==> self.history.closed_log())
        &&& self.job.status == self.history.spec_current()
    }

    /// Creates the job for one accepted attach: a fresh time-ordered job id,
    /// the dated destination `<backup_root>/<label>/<timestamp>`, the drive
    /// row to upsert, and the status log opened with its `ready` entry.
    pub fn create(dev: &BlockDevice, backup_root: &str) -> (r: (JobPipeline, TargetDrive))
        ensures
            r.0.wf(),
            !r.0.finished,
            r.0.job.status == JobStatus::Ready,
            r.0.history.view_entries().len() == 1,
            r.0.device_uuid == dev.uuid,
            r.0.device_label == dev.label,
            r.0.job.target_id == dev.uuid,
            r.0.job.id@.len() == 36,
            (r.0.job.destination_path matches Some(d) && ({
                let prefix = backup_root@ + "/"@ + dev.label@ + "/"@;
                d@.len() >= prefix.len() && d@.subrange(0, prefix.len() as int) == prefix
            })),
            r.1.uuid == dev.uuid,
            r.1.label == dev.label,
            r.1.mount_path == dev.mount_point,
            r.1.raw_size == dev.capacity,
    {
        let job_id = new_uuid_string();
        let stamp = local_timestamp();
        let by_label = join_path(backup_root, dev.label.as_str());
        let destination = join_path(by_label.as_str(), stamp.as_str());
        proof {
            let prefix = backup_root@ + "/"@ + dev.label@ + "/"@;
            assert(destination@.subrange(0, prefix.len() as int) =~= prefix);
        }
        let first = JobStatusEntry {
            id: new_uuid_string(),
            status: JobStatus::Ready,
            description: Some("Job created waiting for processor".to_owned()),
            total_bytes: None,
            duration_secs: None,
            created_at: local_timestamp(),
        };
        let history = JobHistory::start(first);
        let job = Job {
            id: job_id,
            target_id: dev.uuid.clone(),
            destination_path: Some(destination),
            created_at: local_timestamp(),
            status: JobStatus::Ready,
        };
        let drive = TargetDrive {
            uuid: dev.uuid.clone(),
            label: dev.label.clone(),
            mount_path: dev.mount_point.clone(),
            raw_size: dev.capacity,
        };
        let pipeline = JobPipeline {
            job,
            device_uuid: dev.uuid.clone(),
            device_label: dev.label.clone(),
            history,
            finished: false,
        };
        (pipeline, drive)
    }

    /// The transfer request handed to the engine: this job, the device's
    /// mount point as source, the job's destination, and the resolved owner.
    pub fn transfer_request(&self, source: &str, owner: Option<FileOwner>) -> (r:
        TransferRequest)
        requires
            self.job.destination_path is Some,
        ensures
            r.job_id == self.job.id,
            r.source@ == source@,
            Some(r.destination) == self.job.destination_path,
            r.owner == owner,
    {
        TransferRequest {
            job_id: self.job.id.clone(),
            source: source.to_owned(),
            destination: match &self.job.destination_path {
                Some(d) => d.clone(),
                None => String::new(),
            },
            owner,
        }
    }

    /// Consumes one tag of this job's progress stream.
    ///
    /// Every non-terminal tag updates the progress registry and leaves every
    /// other job alone; `copy_complete` is additionally persisted.  A
    /// terminal tag is persisted with its payload, triggers the matching
    /// notification (and, on success, device cleanup), removes the job from
    /// the registry, and finishes the consumer.  A registry in which every
    /// tracked job is live stays that way.
    ///
    /// The step is the consumer's one atomic transition: the terminal entry
    /// is appended to the job's history before the registry entry goes, and
    /// the caller must carry out the returned actions in their order — the
    /// durable status write comes first, before the notification and before
    /// device cleanup, as the scheduling model orders them.
    pub fn consume(&mut self, registry: &mut ProgressTracker, status: TransferStatus) -> (actions:
        Vec<ConsumerAction>)
        requires
            old(self).wf(),
            !old(self).finished,
            old(registry).wf(),
        ensures
            final(self).wf(),
            final(registry).wf(),
            final(self).job.id == old(self).job.id,
            final(self).job.target_id == old(self).job.target_id,
            final(self).job.destination_path == old(self).job.destination_path,
            final(self).device_uuid == old(self).device_uuid,
            final(self).device_label == old(self).device_label,
            final(self).finished == spec_tag_of(status).is_terminal(),
            // The registry tracks this job exactly while it is live.
            !spec_tag_of(status).is_terminal() ==> final(registry).has_job(old(self).job.id@)
                && final(registry).job_status(old(self).job.id@) == status,
            spec_tag_of(status).is_terminal() ==> !final(registry).has_job(old(self).job.id@),
            forall|other: Seq<char>|
                other != old(self).job.id@ ==> #[trigger] final(registry).has_job(other) == old(
                    registry,
                ).has_job(other),
            forall|other: Seq<char>|
                other != old(self).job.id@ && old(registry).has_job(other)
                    ==> #[trigger] final(registry).job_status(other) == old(registry).job_status(
                    other,
                ),
            spec_registry_live(*old(registry)) ==> spec_registry_live(*final(registry)),
            // The log grows exactly at the persisted transitions.
            (status matches TransferStatus::Ready ==> final(self).history == old(self).history
                && actions@.len() == 0),
            (status matches TransferStatus::InProgress { .. } ==> final(self).history == old(
                self,
            ).history && actions@.len() == 0),
            (status matches TransferStatus::Verifying { .. } ==> final(self).history == old(
                self,
            ).history && actions@.len() == 0),
            (status matches TransferStatus::CopyComplete ==> spec_appended(
                old(self).history,
                final(self).history,
                JobStatus::CopyComplete,
                None,
                None,
                None,
            ) && actions@ == seq![
                (ConsumerAction::PersistStatus {
                    status: JobStatus::CopyComplete,
                    description: None,
                    total_bytes: None,
                    duration_secs: None,
                }),
            ]),
            (status matches TransferStatus::Complete { total_bytes, duration_secs }
                ==> spec_appended(
                old(self).history,
                final(self).history,
                JobStatus::Complete,
                None,
                Some(total_bytes),
                Some(duration_secs),
            ) && actions@.len() == 3 && actions@[0] == (ConsumerAction::PersistStatus {
                status: JobStatus::Complete,
                description: None,
                total_bytes: Some(total_bytes),
                duration_secs: Some(duration_secs),
            }) && actions@[1] == ConsumerAction::Notify(
                (JobEvent::Completed {
                    job_id: old(self).job.id,
                    device_label: old(self).device_label,
                    total_bytes,
                    duration_secs,
                }),
            ) && actions@[2] == ConsumerAction::CleanupDevice),
            (status matches TransferStatus::Failed(message) ==> spec_appended(
                old(self).history,
                final(self).history,
                JobStatus::Failed,
                Some(message),
                None,
                None,
            ) && actions@.len() == 2 && actions@[0] == (ConsumerAction::PersistStatus {
                status: JobStatus::Failed,
                description: Some(message),
                total_bytes: None,
                duration_secs: None,
            }) && actions@[1] == ConsumerAction::Notify(
                (JobEvent::Failed {
                    job_id: old(self).job.id,
                    device_label: old(self).device_label,
                    error: message,
                }),
            )),
    {
        let mut actions: Vec<ConsumerAction> = Vec::new();
        match status {
            TransferStatus::Ready => {
                registry.update(self.job.id.as_str(), status);
                proof {
                    lemma_live_after_update(*old(registry), *registry, old(self).job.id@, status);
                }
            },
            TransferStatus::InProgress {
                total_bytes,
                bytes_copied,
                current_file,
                percentage,
                eta_seconds,
            } => {
                registry.update(
                    self.job.id.as_str(),
                    TransferStatus::InProgress {
                        total_bytes,
                        bytes_copied,
                        current_file,
                        percentage,
                        eta_seconds,
                    },
                );
                proof {
                    lemma_live_after_update(*old(registry), *registry, old(self).job.id@, status);
                }
            },
            TransferStatus::Verifying { current, total } => {
                registry.update(
                    self.job.id.as_str(),
                    TransferStatus::Verifying { current, total },
                );
                proof {
                    lemma_live_after_update(*old(registry), *registry, old(self).job.id@, status);
                }
            },
            TransferStatus::CopyComplete => {
                registry.update(self.job.id.as_str(), status);
                proof {
                    lemma_live_after_update(*old(registry), *registry, old(self).job.id@, status);
                }
                let entry = JobStatusEntry {
                    id: new_uuid_string(),
                    status: JobStatus::CopyComplete,
                    description: None,
                    total_bytes: None,
                    duration_secs: None,
                    created_at: local_timestamp(),
                };
                let accepted = self.history.append(entry);
                assert(accepted);
                self.job.status = JobStatus::CopyComplete;
                actions.push(
                    ConsumerAction::PersistStatus {
                        status: JobStatus::CopyComplete,
                        description: None,
                        total_bytes: None,
                        duration_secs: None,
                    },
                );
                proof {
                    assert(self.history.view_entries().drop_last() =~= old(
                        self,
                    ).history.view_entries());
                    assert(actions@ =~= seq![
                        (ConsumerAction::PersistStatus {
                            status: JobStatus::CopyComplete,
                            description: None,
                            total_bytes: None,
                            duration_secs: None,
                        }),
                    ]);
                }
            },
            TransferStatus::Complete { total_bytes, duration_secs } => {
                let entry = JobStatusEntry {
                    id: new_uuid_string(),
                    status: JobStatus::Complete,
                    description: None,
                    total_bytes: Some(total_bytes),
                    duration_secs: Some(duration_secs),
                    created_at: local_timestamp(),
                };
                let accepted = self.history.append(entry);
                assert(accepted);
                self.job.status = JobStatus::Complete;
                self.finished = true;
                actions.push(
                    ConsumerAction::PersistStatus {
                        status: JobStatus::Complete,
                        description: None,
                        total_bytes: Some(total_bytes),
                        duration_secs: Some(duration_secs),
                    },
                );
                actions.push(
                    ConsumerAction::Notify(
                        JobEvent::Completed {
                            job_id: self.job.id.clone(),
                            device_label: self.device_label.clone(),
                            total_bytes,
                            duration_secs,
                        },
                    ),
                );
                actions.push(ConsumerAction::CleanupDevice);
                registry.remove(self.job.id.as_str());
                proof {
                    lemma_live_after_remove(*old(registry), *registry, old(self).job.id@);
                    assert(self.history.view_entries().drop_last() =~= old(
                        self,
                    ).history.view_entries());
                }
            },
            TransferStatus::Failed(message) => {
                let entry = JobStatusEntry {
                    id: new_uuid_string(),
                    status: JobStatus::Failed,
                    description: Some(message.clone()),
                    total_bytes: None,
                    duration_secs: None,
                    created_at: local_timestamp(),
                };
                let accepted = self.history.append(entry);
                assert(accepted);
                self.job.status = JobStatus::Failed;
                self.finished = true;
                actions.push(
                    ConsumerAction::PersistStatus {
                        status: JobStatus::Failed,
                        description: Some(message.clone()),
                        total_bytes: None,
                        duration_secs: None,
                    },
                );
                actions.push(
                    ConsumerAction::Notify(
                        JobEvent::Failed {
                            job_id: self.job.id.clone(),
                            device_label: self.device_label.clone(),
                            error: message,
                        },
                    ),
                );
                registry.remove(self.job.id.as_str());
                proof {
                    lemma_live_after_remove(*old(registry), *registry, old(self).job.id@);
                    assert(self.history.view_entries().drop_last() =~= old(
                        self,
                    ).history.view_entries());
                }
            },
        }
        actions
    }
}

/// Updating a job with a non-terminal status keeps the registry live.
proof fn lemma_live_after_update(
    before: ProgressTracker,
    after: ProgressTracker,
    id: Seq<char>,
    status: TransferStatus,
)
    requires
        !status.is_terminal(),
        after.has_job(id),
        after.job_status(id) == status,
        forall|other: Seq<char>|
            other != id ==> #[trigger] after.has_job(other) == before.has_job(other),
        forall|other: Seq<char>|
            other != id && before.has_job(other) ==> #[trigger] after.job_status(other)
                == before.job_status(other),
    ensures
        spec_registry_live(before) ==> spec_registry_live(after),
{
    if spec_registry_live(before) {
        assert forall|jid: Seq<char>|
            after.has_job(jid) implies !(#[trigger] after.job_status(jid)).is_terminal() by {
            if jid != id {
                assert(before.has_job(jid));
            }
        }
    }
}

/// Removing a job keeps the registry live.
proof fn lemma_live_after_remove(before: ProgressTracker, after: ProgressTracker, id: Seq<char>)
    requires
        !after.has_job(id),
        forall|other: Seq<char>|
            other != id ==> #[trigger] after.has_job(other) == before.has_job(other),
        forall|other: Seq<char>|
            other != id && before.has_job(other) ==> #[trigger] after.job_status(other)
                == before.job_status(other),
    ensures
        spec_registry_live(before) ==> spec_registry_live(after),
{
    if spec_registry_live(before) {
        assert forall|jid: Seq<char>|
            after.has_job(jid) implies !(#[trigger] after.job_status(jid)).is_terminal() by {
            assert(jid != id);
            assert(before.has_job(jid));
        }
    }
}

/// The producer's step after the transfer engine returns: what to send now,
/// and whether the verifier must run.
///
/// A successful transfer is announced with `copy_complete`; verification
/// runs exactly when it is enabled, the run is not a simulation, and the
/// engine captured per-file hashes.  A failed transfer is announced with
/// `failed` carrying the engine's message, and verification never runs.
pub fn after_transfer(
    transfer: &Result<TransferResult, String>,
    verify_transfers: bool,
    simulation: bool,
) -> (r: (TransferStatus, bool))
    ensures
        transfer is Ok ==> r.0 == TransferStatus::CopyComplete,
        transfer is Ok ==> (r.1 <==> (verify_transfers && !simulation
            && transfer->Ok_0.file_hashes is Some)),
        transfer matches Err(m) ==> (r.0 matches TransferStatus::Failed(f) && f@ == m@) && !r.1,
{
    match transfer {
        Ok(result) => {
            let need_verify = verify_transfers && !simulation && result.file_hashes.is_some();
            (TransferStatus::CopyComplete, need_verify)
        },
        Err(message) => (TransferStatus::Failed(message.clone()), false),
    }
}

/// The terminal tag of a job whose transfer succeeded and whose verification
/// passed or was skipped: `complete` with the transfer's totals.
pub fn completion_status(result: &TransferResult) -> (r: TransferStatus)
    ensures
        r == (TransferStatus::Complete {
            total_bytes: result.total_bytes,
            duration_secs: result.duration_secs,
        }),
{
    TransferStatus::Complete {
        total_bytes: result.total_bytes,
        duration_secs: result.duration_secs,
    }
}

/// The producer's step after verification: `complete` with the transfer's
/// totals when it passed, else `failed` with the verifier's message.
pub fn after_verification(
    result: &TransferResult,
    verification: &Result<VerifyResult, String>,
) -> (r: TransferStatus)
    ensures
        verification is Ok ==> r == (TransferStatus::Complete {
            total_bytes: result.total_bytes,
            duration_secs: result.duration_secs,
        }),
        verification matches Err(m) ==> (r matches TransferStatus::Failed(f) && f@ == m@),
{
    match verification {
        Ok(_) => completion_status(result),
        Err(message) => TransferStatus::Failed(message.clone()),
    }
}

} // verus!
