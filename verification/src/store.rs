//! The job store: the target drives, every job with its append-only status
//! log.
//!
//! This is the contract the core needs from persistence: create a job —
//! upserting its target drive and opening the log with the initial `ready`
//! entry in one step — append one status-log entry per transition, and read
//! a job or its full history back.  A job's stored status is always the
//! status of its newest log entry, and a log closed by a terminal entry
//! never grows again.  Jobs keep their creation order.

use vstd::prelude::*;
use crate::history::JobHistory;
use crate::models::{Job, JobStatus, JobStatusEntry, TargetDrive};

verus! {

/// All jobs, in creation order, each with its status log, and the target
/// drives they back up.
pub struct JobStore {
    jobs: Vec<Job>,
    histories: Vec<JobHistory>,
    targets: Vec<TargetDrive>,
}

impl JobStore {
    /// The stored job ids, in creation order.
    pub closed spec fn ids(self) -> Seq<Seq<char>> {
        self.jobs@.map_values(|j: Job| j.id@)
    }

    /// The stored jobs.
    pub closed spec fn rows(self) -> Seq<Job> {
        self.jobs@
    }

    /// The stored logs, aligned with `rows`.
    pub closed spec fn logs(self) -> Seq<JobHistory> {
        self.histories@
    }

    /// The stored target drives.
    pub closed spec fn target_rows(self) -> Seq<TargetDrive> {
        self.targets@
    }

    /// The stored target-drive ids.
    pub closed spec fn target_ids(self) -> Seq<Seq<char>> {
        self.targets@.map_values(|t: TargetDrive| t.uuid@)
    }

    /// One log per job, one id per job row, no id stored twice (jobs or
    /// targets), every log well formed, and every job's status derived from
    /// its newest log entry.
    pub open spec fn wf(self) -> bool {
        &&& self.ids().len() == self.rows().len()
        &&& self.rows().len() == self.logs().len()
        &&& self.target_ids().len() == self.target_rows().len()
        &&& forall|i: int, j: int| 0 <= i < j < self.ids().len() ==> self.ids()[i] != self.ids()[j]
        &&& forall|i: int, j: int|
            0 <= i < j < self.target_ids().len() ==> self.target_ids()[i] != self.target_ids()[j]
        &&& forall|i: int| 0 <= i < self.logs().len() ==> (#[trigger] self.logs()[i]).wf()
        &&& forall|i: int|
            0 <= i < self.rows().len() ==> (#[trigger] self.rows()[i]).status
                == self.logs()[i].spec_current()
    }

    /// Whether a target drive with this volume id is stored.
    pub open spec fn has_target(self, uuid: Seq<char>) -> bool {
        exists|i: int| 0 <= i < self.target_ids().len() && self.target_ids()[i] == uuid
    }

    /// The stored target row for a volume id (meaningful only when
    /// `has_target(uuid)`).
    pub open spec fn target_of(self, uuid: Seq<char>) -> TargetDrive {
        let i = choose|i: int|
            0 <= i < self.target_ids().len() && self.target_ids()[i] == uuid;
        self.target_rows()[i]
    }

    /// Whether a job with this id is stored.
    pub open spec fn has_job(self, id: Seq<char>) -> bool {
        exists|i: int| 0 <= i < self.ids().len() && self.ids()[i] == id
    }

    /// The stored index of `id` (meaningful only when `has_job(id)`).
    pub open spec fn spec_index_of(self, id: Seq<char>) -> int {
        choose|i: int| 0 <= i < self.ids().len() && self.ids()[i] == id
    }

    /// An empty store.
    pub fn new() -> (r: JobStore)
        ensures
            r.wf(),
            r.rows().len() == 0,
            r.target_rows().len() == 0,
            forall|id: Seq<char>| !r.has_job(id),
            forall|u: Seq<char>| !r.has_target(u),
    {
        JobStore { jobs: Vec::new(), histories: Vec::new(), targets: Vec::new() }
    }

    fn find(&self, job_id: &str) -> (r: Option<usize>)
        requires
            self.wf(),
        ensures
            r matches Some(i) ==> i < self.ids().len() && self.ids()[i as int] == job_id@,
            r is None ==> !self.has_job(job_id@),
    {
        let mut i: usize = 0;
        while i < self.jobs.len()
            invariant
                self.wf(),
                i <= self.ids().len(),
                forall|j: int| 0 <= j < i ==> self.ids()[j] != job_id@,
            decreases self.ids().len() - i,
        {
            if crate::text::str_eq(self.jobs[i].id.as_str(), job_id) {
                return Some(i);
            }
            i += 1;
        }
        None
    }

    fn find_target(&self, uuid: &str) -> (r: Option<usize>)
        requires
            self.wf(),
        ensures
            r matches Some(i) ==> i < self.target_ids().len() && self.target_ids()[i as int]
                == uuid@,
            r is None ==> !self.has_target(uuid@),
    {
        let mut i: usize = 0;
        while i < self.targets.len()
            invariant
                self.wf(),
                i <= self.target_ids().len(),
                forall|j: int| 0 <= j < i ==> self.target_ids()[j] != uuid@,
            decreases self.target_ids().len() - i,
        {
            if crate::text::str_eq(self.targets[i].uuid.as_str(), uuid) {
                return Some(i);
            }
            i += 1;
        }
        None
    }

    /// Upserts the target drive by its volume id: a new drive is stored as
    /// given; a known one keeps its row's id and size and takes the fresh
    /// label and mount path.  Every other target is left as it was.
    fn upsert_target(&mut self, drive: TargetDrive)
        requires
            old(self).wf(),
        ensures
            final(self).wf(),
            final(self).rows() == old(self).rows(),
            final(self).logs() == old(self).logs(),
            final(self).has_target(drive.uuid@),
            !old(self).has_target(drive.uuid@) ==> final(self).target_of(drive.uuid@) == drive
                && final(self).target_rows().len() == old(self).target_rows().len() + 1,
            old(self).has_target(drive.uuid@) ==> final(self).target_of(drive.uuid@) == (
            TargetDrive {
                label: drive.label,
                mount_path: drive.mount_path,
                ..old(self).target_of(drive.uuid@)
            }) && final(self).target_rows().len() == old(self).target_rows().len(),
            forall|u: Seq<char>|
                u != drive.uuid@ ==> #[trigger] final(self).has_target(u) == old(self).has_target(u),
            forall|u: Seq<char>|
                u != drive.uuid@ && old(self).has_target(u) ==> #[trigger] final(self).target_of(u) == old(self).target_of(u),
    {
        let found = self.find_target(drive.uuid.as_str());
        match found {
            Some(i) => {
                proof {
                    lemma_store_index_unique(old(self).target_ids(), i as int, drive.uuid@);
                    assert(old(self).target_of(drive.uuid@) == old(self).target_rows()[i as int]);
                }
                let mut row = self.targets.remove(i);
                row.label = drive.label;
                row.mount_path = drive.mount_path;
                self.targets.insert(i, row);
                proof {
                    assert(self.targets@ =~= old(self).target_rows().update(
                        i as int,
                        self.targets@[i as int],
                    ));
                    assert(final(self).target_ids() =~= old(self).target_ids());
                    assert(final(self).target_of(drive.uuid@) == final(self).target_rows()[i as int]);
                }
            },
            None => {
                self.targets.push(drive);
                proof {
                    let n = old(self).target_ids().len() as int;
                    assert(final(self).target_ids() =~= old(self).target_ids().push(
                        drive.uuid@,
                    ));
                    assert(final(self).target_ids()[n] == drive.uuid@);
                    lemma_store_index_unique(final(self).target_ids(), n, drive.uuid@);
                    assert forall|u: Seq<char>|
                        u != drive.uuid@ implies #[trigger] final(self).has_target(u) == old(self).has_target(u) by {
                        if final(self).has_target(u) {
                            let j = choose|j: int|
                                0 <= j < final(self).target_ids().len() && final(self).target_ids()[j] == u;
                            assert(j < n);
                            assert(old(self).target_ids()[j] == u);
                        }
                        if old(self).has_target(u) {
                            let j = choose|j: int|
                                0 <= j < old(self).target_ids().len() && old(self).target_ids()[j] == u;
                            assert(final(self).target_ids()[j] == u);
                        }
                    }
                    assert forall|u: Seq<char>|
                        u != drive.uuid@ && old(self).has_target(u) implies #[trigger] final(self).target_of(u) == old(self).target_of(u) by {
                        let jo = choose|jo: int|
                            0 <= jo < old(self).target_ids().len() && old(self).target_ids()[jo]
                                == u;
                        assert(final(self).target_ids()[jo] == u);
                        let j = choose|j: int|
                            0 <= j < final(self).target_ids().len() && final(self).target_ids()[j]
                                == u;
                        assert(j < n);
                    }
                }
            },
        }
    }

    /// Stores a newly created job: upserts its target drive, appends the
    /// job's row, and opens its log — one step, so no partial state exists.
    /// The job's row and log land at the end, keeping creation order.
    pub fn create(&mut self, drive: TargetDrive, job: Job, history: JobHistory)
        requires
            old(self).wf(),
            !old(self).has_job(job.id@),
            job.target_id@ == drive.uuid@,
            history.wf(),
            job.status == history.spec_current(),
        ensures
            final(self).wf(),
            final(self).rows() == old(self).rows().push(job),
            final(self).logs() == old(self).logs().push(history),
            final(self).has_job(job.id@),
            forall|other: Seq<char>|
                other != job.id@ ==> #[trigger] final(self).has_job(other) == old(self).has_job(
                    other,
                ),
            final(self).has_target(drive.uuid@),
            !old(self).has_target(drive.uuid@) ==> final(self).target_of(drive.uuid@) == drive,
            old(self).has_target(drive.uuid@) ==> final(self).target_of(drive.uuid@) == (
            TargetDrive {
                label: drive.label,
                mount_path: drive.mount_path,
                ..old(self).target_of(drive.uuid@)
            }),
            forall|u: Seq<char>|
                u != drive.uuid@ ==> #[trigger] final(self).has_target(u) == old(self).has_target(u),
            forall|u: Seq<char>|
                u != drive.uuid@ && old(self).has_target(u) ==> #[trigger] final(self).target_of(u) == old(self).target_of(u),
    {
        let ghost uuid_view = drive.uuid@;
        self.upsert_target(drive);
        let ghost mid = *self;
        self.jobs.push(job);
        self.histories.push(history);
        proof {
            assert(final(self).target_rows() =~= mid.target_rows());
            assert(final(self).target_ids() =~= mid.target_ids());
            assert forall|u: Seq<char>| #[trigger] final(self).has_target(u) == mid.has_target(
                u,
            ) by {}
            assert forall|u: Seq<char>|
                mid.has_target(u) implies #[trigger] final(self).target_of(u) == mid.target_of(
                u,
            ) by {}
            let n = old(self).ids().len() as int;
            assert(final(self).ids() =~= old(self).ids().push(job.id@));
            assert(final(self).ids()[n] == job.id@);
            assert forall|other: Seq<char>|
                other != job.id@ implies #[trigger] final(self).has_job(other) == old(self).has_job(other) by {
                if final(self).has_job(other) {
                    let j = choose|j: int|
                        0 <= j < final(self).ids().len() && final(self).ids()[j] == other;
                    assert(j < n);
                    assert(old(self).ids()[j] == other);
                }
                if old(self).has_job(other) {
                    let j = choose|j: int|
                        0 <= j < old(self).ids().len() && old(self).ids()[j] == other;
                    assert(final(self).ids()[j] == other);
                }
            }
        }
    }

    /// Appends one status-log entry for a job and re-derives its status.
    ///
    /// The entry lands exactly when the job exists and its log is still
    /// open; a log closed by a terminal entry, or an unknown job, is left
    /// untouched.  Every other job keeps its row and log.
    pub fn update_status(&mut self, job_id: &str, entry: JobStatusEntry) -> (appended: bool)
        requires
            old(self).wf(),
        ensures
            final(self).wf(),
            appended <==> (old(self).has_job(job_id@) && !old(self).logs()[old(self).spec_index_of(job_id@)].closed_log()),
            final(self).target_rows() == old(self).target_rows(),
            forall|other: Seq<char>|
                #[trigger] final(self).has_job(other) == old(self).has_job(other),
            !appended ==> final(self).rows() == old(self).rows() && final(self).logs() == old(self).logs(),
            appended ==> ({
                let i = old(self).spec_index_of(job_id@);
                &&& final(self).rows().len() == old(self).rows().len()
                &&& final(self).logs().len() == old(self).logs().len()
                &&& final(self).logs()[i].view_entries() == old(self).logs()[i].view_entries().push(
                    entry,
                )
                &&& final(self).rows()[i].status == entry.status
                &&& final(self).rows()[i].id == old(self).rows()[i].id
                &&& forall|j: int|
                    0 <= j < old(self).rows().len() && j != i ==> #[trigger] final(self).rows()[j]
                        == old(self).rows()[j] && final(self).logs()[j] == old(self).logs()[j]
            }),
    {
        let found = self.find(job_id);
        match found {
            Some(i) => {
                proof {
                    lemma_store_index_unique(old(self).ids(), i as int, job_id@);
                    assert(old(self).spec_index_of(job_id@) == i as int);
                }
                let mut history = self.histories.remove(i);
                let accepted = history.append(entry);
                let entry_status = if accepted {
                    Some(history.current_status())
                } else {
                    None
                };
                self.histories.insert(i, history);
                proof {
                    assert(self.histories@ =~= old(self).logs().update(
                        i as int,
                        self.histories@[i as int],
                    ));
                }
                match entry_status {
                    Some(status) => {
                        let mut job = self.jobs.remove(i);
                        job.status = status;
                        self.jobs.insert(i, job);
                        proof {
                            assert(self.jobs@ =~= old(self).rows().update(
                                i as int,
                                self.jobs@[i as int],
                            ));
                            assert(final(self).ids() =~= old(self).ids());
                            assert forall|other: Seq<char>|
                                #[trigger] final(self).has_job(other) == old(self).has_job(
                                other,
                            ) by {}
                        }
                        true
                    },
                    None => {
                        proof {
                            assert(final(self).logs() =~= old(self).logs());
                            assert(final(self).ids() =~= old(self).ids());
                        }
                        false
                    },
                }
            },
            None => false,
        }
    }

    /// The stored row of a target drive.
    pub fn target(&self, uuid: &str) -> (r: Option<&TargetDrive>)
        requires
            self.wf(),
        ensures
            r is Some <==> self.has_target(uuid@),
            r matches Some(t) ==> *t == self.target_of(uuid@),
    {
        let found = self.find_target(uuid);
        match found {
            Some(i) => {
                proof {
                    lemma_store_index_unique(self.target_ids(), i as int, uuid@);
                }
                Some(&self.targets[i])
            },
            None => None,
        }
    }

    /// The stored row of a job.
    pub fn get(&self, job_id: &str) -> (r: Option<&Job>)
        requires
            self.wf(),
        ensures
            r is Some <==> self.has_job(job_id@),
            r matches Some(j) ==> *j == self.rows()[self.spec_index_of(job_id@)],
    {
        let found = self.find(job_id);
        match found {
            Some(i) => {
                proof {
                    lemma_store_index_unique(self.ids(), i as int, job_id@);
                }
                Some(&self.jobs[i])
            },
            None => None,
        }
    }

    /// A job together with its full status history.
    pub fn get_with_history(&self, job_id: &str) -> (r: Option<(&Job, &JobHistory)>)
        requires
            self.wf(),
        ensures
            r is Some <==> self.has_job(job_id@),
            r matches Some(pair) ==> *pair.0 == self.rows()[self.spec_index_of(job_id@)]
                && *pair.1 == self.logs()[self.spec_index_of(job_id@)],
    {
        let found = self.find(job_id);
        match found {
            Some(i) => {
                proof {
                    lemma_store_index_unique(self.ids(), i as int, job_id@);
                }
                Some((&self.jobs[i], &self.histories[i]))
            },
            None => None,
        }
    }

    /// How many jobs are stored.
    pub fn count(&self) -> (r: usize)
        requires
            self.wf(),
        ensures
            r == self.rows().len(),
    {
        self.jobs.len()
    }

    /// The `i`-th job in creation order; with `history_at` this walks the
    /// store for job listings, newest last.
    pub fn job_at(&self, i: usize) -> (r: &Job)
        requires
            self.wf(),
            i < self.rows().len(),
        ensures
            *r == self.rows()[i as int],
    {
        &self.jobs[i]
    }

    /// The log of the `i`-th job in creation order.
    pub fn history_at(&self, i: usize) -> (r: &JobHistory)
        requires
            self.wf(),
            i < self.rows().len(),
        ensures
            *r == self.logs()[i as int],
    {
        &self.histories[i]
    }

    /// One page of the job listing: newest first, filtered by status when a
    /// filter is given, skipping `offset` matches and returning at most
    /// `limit`.
    pub fn list(&self, limit: usize, offset: usize, status: Option<JobStatus>) -> (r: Vec<
        &Job,
    >)
        requires
            self.wf(),
            offset + limit <= usize::MAX,
        ensures
            ({
                let page = spec_page(
                    spec_listing(self.rows(), status, self.rows().len() as int),
                    offset as int,
                    limit as int,
                );
                r@.len() == page.len() && (forall|i: int|
                    0 <= i < r@.len() ==> *(#[trigger] r@[i]) == page[i])
            }),
    {
        let ghost rows = self.rows();
        let ghost full = spec_listing(rows, status, rows.len() as int);
        let mut out: Vec<&Job> = Vec::new();
        let mut seen: usize = 0;
        let ghost mut taken: Seq<Job> = Seq::empty();
        let mut k: usize = self.jobs.len();
        while k > 0
            invariant
                self.wf(),
                rows == self.rows(),
                full == spec_listing(rows, status, rows.len() as int),
                k <= rows.len(),
                rows.len() <= usize::MAX,
                taken.len() + k <= rows.len(),
                full == taken + spec_listing(rows, status, k as int),
                seen == taken.len(),
                out@.len() == spec_page(taken, offset as int, limit as int).len(),
                forall|i: int|
                    0 <= i < out@.len() ==> *(#[trigger] out@[i]) == spec_page(
                        taken,
                        offset as int,
                        limit as int,
                    )[i],
                offset + limit <= usize::MAX,
            decreases k,
        {
            k = k - 1;
            let row = &self.jobs[k];
            let matches_filter = match status {
                Some(s) => row.status == s,
                None => true,
            };
            proof {
                if matches_filter {
                    assert(spec_filter_matches(rows[k as int], status));
                } else {
                    assert(!spec_filter_matches(rows[k as int], status));
                }
            }
            if matches_filter {
                if seen >= offset && out.len() < limit {
                    out.push(row);
                }
                proof {
                    let taken2 = taken + seq![rows[k as int]];
                    assert(full =~= taken2 + spec_listing(rows, status, k as int));
                    assert(spec_page(taken2, offset as int, limit as int)
                        =~= if offset <= taken.len() < offset + limit {
                        spec_page(taken, offset as int, limit as int).push(rows[k as int])
                    } else {
                        spec_page(taken, offset as int, limit as int)
                    });
                    taken = taken2;
                }
                seen = seen + 1;
            } else {
                proof {
                    assert(full =~= taken + spec_listing(rows, status, k as int));
                }
            }
        }
        proof {
            assert(full =~= taken);
        }
        out
    }
}

/// Whether a job row passes a status filter; no filter passes everything.
pub open spec fn spec_filter_matches(j: Job, filter: Option<JobStatus>) -> bool {
    match filter {
        Some(s) => j.status == s,
        None => true,
    }
}

/// The matching jobs among the first `k` stored rows, newest first.
pub open spec fn spec_listing(rows: Seq<Job>, filter: Option<JobStatus>, k: int) -> Seq<Job>
    decreases k,
{
    if k <= 0 {
        Seq::empty()
    } else if spec_filter_matches(rows[k - 1], filter) {
        seq![rows[k - 1]] + spec_listing(rows, filter, k - 1)
    } else {
        spec_listing(rows, filter, k - 1)
    }
}

/// The window `[offset, offset + limit)` of a listing, clamped to its
/// length.
pub open spec fn spec_page(s: Seq<Job>, offset: int, limit: int) -> Seq<Job> {
    let lo = if offset < s.len() {
        offset
    } else {
        s.len() as int
    };
    let hi = if offset + limit < s.len() {
        offset + limit
    } else {
        s.len() as int
    };
    s.subrange(lo, hi)
}

/// In a duplicate-free id sequence, an id names exactly one index.
proof fn lemma_store_index_unique(ids: Seq<Seq<char>>, i: int, id: Seq<char>)
    requires
        forall|a: int, b: int| 0 <= a < b < ids.len() ==> ids[a] != ids[b],
        0 <= i < ids.len(),
        ids[i] == id,
    ensures
        forall|j: int| 0 <= j < ids.len() && ids[j] == id ==> j == i,
{
}

/// The current status a read returns is always the status of the job's
/// newest log entry.
pub proof fn lemma_read_status_is_newest(store: JobStore, i: int)
    requires
        store.wf(),
        0 <= i < store.rows().len(),
    ensures
        store.rows()[i].status == store.logs()[i].view_entries().last().status,
{
}

} // verus!
