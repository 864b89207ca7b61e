//! In-memory registry of live transfer progress.
//!
//! The registry maps each active job id to the latest `TransferStatus` its
//! consumer saw.  It is not persisted: only state transitions go to the
//! status log, while this view serves status queries.  Entries are written by
//! a job's consumer and removed when the job reaches a terminal state, so a
//! job found here is always live.

use vstd::prelude::*;
use crate::status::TransferStatus;

verus! {

/// Mapping job id → latest transfer status, one entry per active job.
pub struct ProgressTracker {
    ids: Vec<String>,
    statuses: Vec<TransferStatus>,
}

impl ProgressTracker {
    /// The job ids currently tracked, in insertion order.
    pub closed spec fn jobs(self) -> Seq<Seq<char>> {
        self.ids@.map_values(|s: String| s@)
    }

    /// The tracked statuses, aligned with `jobs`.
    pub closed spec fn stats(self) -> Seq<TransferStatus> {
        self.statuses@
    }

    /// One status per job, and no job tracked twice.
    pub open spec fn wf(self) -> bool {
        &&& self.jobs().len() == self.stats().len()
        &&& forall|i: int, j: int|
            0 <= i < j < self.jobs().len() ==> self.jobs()[i] != self.jobs()[j]
    }

    /// How many jobs are tracked.
    pub open spec fn count(self) -> nat {
        self.jobs().len()
    }

    /// Whether `id` is tracked.
    pub open spec fn has_job(self, id: Seq<char>) -> bool {
        exists|i: int| 0 <= i < self.jobs().len() && self.jobs()[i] == id
    }

    /// The status tracked for `id` (meaningful only when `has_job(id)`).
    pub open spec fn job_status(self, id: Seq<char>) -> TransferStatus {
        let i = choose|i: int| 0 <= i < self.jobs().len() && self.jobs()[i] == id;
        self.stats()[i]
    }

    /// An empty registry.
    pub fn new() -> (r: ProgressTracker)
        ensures
            r.wf(),
            r.count() == 0,
            forall|id: Seq<char>| !r.has_job(id),
    {
        ProgressTracker { ids: Vec::new(), statuses: Vec::new() }
    }

    /// The index of `job_id`, or none when it is not tracked.
    fn find(&self, job_id: &str) -> (r: Option<usize>)
        requires
            self.wf(),
        ensures
            r matches Some(i) ==> i < self.jobs().len() && self.jobs()[i as int] == job_id@,
            r is None ==> !self.has_job(job_id@),
    {
        let mut i: usize = 0;
        while i < self.ids.len()
            invariant
                self.wf(),
                i <= self.jobs().len(),
                forall|j: int| 0 <= j < i ==> self.jobs()[j] != job_id@,
            decreases self.jobs().len() - i,
        {
            if crate::text::str_eq(self.ids[i].as_str(), job_id) {
                return Some(i);
            }
            i += 1;
        }
        None
    }

    /// Records the latest status for a job: its entry now holds `status`,
    /// every other job is untouched, and the job count grows only when the
    /// job was new.
    pub fn update(&mut self, job_id: &str, status: TransferStatus)
        requires
            old(self).wf(),
        ensures
            final(self).wf(),
            final(self).has_job(job_id@),
            final(self).job_status(job_id@) == status,
            forall|other: Seq<char>|
                other != job_id@ ==> #[trigger] final(self).has_job(other) == old(self).has_job(
                    other,
                ),
            forall|other: Seq<char>|
                other != job_id@ && old(self).has_job(other) ==> #[trigger] final(self).job_status(other) == old(self).job_status(other),
            final(self).count() == if old(self).has_job(job_id@) {
                old(self).count()
            } else {
                old(self).count() + 1
            },
    {
        let found = self.find(job_id);
        match found {
            Some(i) => {
                self.statuses[i] = status;
                proof {
                    assert(final(self).jobs() =~= old(self).jobs());
                    lemma_distinct_index_unique(final(self).jobs(), i as int, job_id@);
                    assert forall|other: Seq<char>|
                        other != job_id@ && old(self).has_job(other) implies #[trigger] final(self).job_status(other) == old(self).job_status(other) by {
                        let j = choose|j: int|
                            0 <= j < final(self).jobs().len() && final(self).jobs()[j] == other;
                        assert(j != i);
                    }
                }
            },
            None => {
                self.ids.push(job_id.to_owned());
                self.statuses.push(status);
                proof {
                    assert(final(self).jobs() =~= old(self).jobs().push(job_id@));
                    let n = old(self).jobs().len() as int;
                    assert(final(self).jobs()[n] == job_id@);
                    lemma_distinct_index_unique(final(self).jobs(), n, job_id@);
                    assert forall|other: Seq<char>|
                        other != job_id@ implies #[trigger] final(self).has_job(other) == old(self).has_job(other) by {
                        if final(self).has_job(other) {
                            let j = choose|j: int|
                                0 <= j < final(self).jobs().len() && final(self).jobs()[j]
                                    == other;
                            assert(j < n);
                            assert(old(self).jobs()[j] == other);
                        }
                        if old(self).has_job(other) {
                            let j = choose|j: int|
                                0 <= j < old(self).jobs().len() && old(self).jobs()[j] == other;
                            assert(final(self).jobs()[j] == other);
                        }
                    }
                    assert forall|other: Seq<char>|
                        other != job_id@ && old(self).has_job(other) implies #[trigger] final(self).job_status(other) == old(self).job_status(other) by {
                        let jo = choose|jo: int|
                            0 <= jo < old(self).jobs().len() && old(self).jobs()[jo] == other;
                        assert(final(self).jobs()[jo] == other);
                        let j = choose|j: int|
                            0 <= j < final(self).jobs().len() && final(self).jobs()[j] == other;
                        assert(j < n);
                    }
                }
            },
        }
    }

    /// The current status of a job, when it is tracked.
    pub fn get(&self, job_id: &str) -> (r: Option<&TransferStatus>)
        requires
            self.wf(),
        ensures
            r is Some <==> self.has_job(job_id@),
            r matches Some(s) ==> *s == self.job_status(job_id@),
    {
        let found = self.find(job_id);
        match found {
            Some(i) => {
                proof {
                    lemma_distinct_index_unique(self.jobs(), i as int, job_id@);
                }
                Some(&self.statuses[i])
            },
            None => None,
        }
    }

    /// Drops a job from tracking; every other job keeps its status.
    pub fn remove(&mut self, job_id: &str)
        requires
            old(self).wf(),
        ensures
            final(self).wf(),
            !final(self).has_job(job_id@),
            forall|other: Seq<char>|
                other != job_id@ ==> #[trigger] final(self).has_job(other) == old(self).has_job(
                    other,
                ),
            forall|other: Seq<char>|
                other != job_id@ && old(self).has_job(other) ==> #[trigger] final(self).job_status(other) == old(self).job_status(other),
            final(self).count() == if old(self).has_job(job_id@) {
                (old(self).count() - 1) as nat
            } else {
                old(self).count()
            },
    {
        let found = self.find(job_id);
        match found {
            Some(i) => {
                proof {
                    lemma_distinct_index_unique(old(self).jobs(), i as int, job_id@);
                }
                self.ids.remove(i);
                self.statuses.remove(i);
                proof {
                    let k = i as int;
                    let n = old(self).jobs().len() as int;
                    let oj = old(self).jobs();
                    let os = old(self).stats();
                    assert(final(self).jobs() =~= oj.remove(k));
                    assert(final(self).stats() =~= os.remove(k));
                    oj.remove_ensures(k);
                    os.remove_ensures(k);
                    assert(forall|idx: int|
                        0 <= idx < k ==> final(self).jobs()[idx] == oj[idx] && final(self).stats()[idx] == os[idx]);
                    assert(forall|idx: int|
                        k <= idx < n - 1 ==> final(self).jobs()[idx] == oj[idx + 1] && final(self).stats()[idx] == os[idx + 1]);
                    assert(final(self).wf()) by {
                        assert forall|a: int, b: int|
                            0 <= a < b < final(self).jobs().len() implies final(self).jobs()[a]
                            != final(self).jobs()[b] by {
                            let ao = if a < k { a } else { a + 1 };
                            let bo = if b < k { b } else { b + 1 };
                            assert(final(self).jobs()[a] == oj[ao]);
                            assert(final(self).jobs()[b] == oj[bo]);
                        }
                    }
                    assert forall|other: Seq<char>|
                        other != job_id@ implies #[trigger] final(self).has_job(other) == old(self).has_job(other) by {
                        if final(self).has_job(other) {
                            let j = choose|j: int|
                                0 <= j < final(self).jobs().len() && final(self).jobs()[j]
                                    == other;
                            if j < k {
                                assert(oj[j] == other);
                            } else {
                                assert(oj[j + 1] == other);
                            }
                        }
                        if old(self).has_job(other) {
                            let j = choose|j: int| 0 <= j < oj.len() && oj[j] == other;
                            assert(j != k);
                            if j < k {
                                assert(final(self).jobs()[j] == other);
                            } else {
                                assert(final(self).jobs()[j - 1] == other);
                            }
                        }
                    }
                    assert(!final(self).has_job(job_id@)) by {
                        if final(self).has_job(job_id@) {
                            let j = choose|j: int|
                                0 <= j < final(self).jobs().len() && final(self).jobs()[j]
                                    == job_id@;
                            if j < k {
                                assert(oj[j] == job_id@);
                            } else {
                                assert(oj[j + 1] == job_id@);
                            }
                        }
                    }
                    assert forall|other: Seq<char>|
                        other != job_id@ && old(self).has_job(other) implies #[trigger] final(self).job_status(other) == old(self).job_status(other) by {
                        let j = choose|j: int| 0 <= j < oj.len() && oj[j] == other;
                        assert(j != k);
                        if j < k {
                            assert(final(self).jobs()[j] == other);
                        } else {
                            assert(final(self).jobs()[j - 1] == other);
                        }
                        let j2 = choose|j2: int|
                            0 <= j2 < final(self).jobs().len() && final(self).jobs()[j2] == other;
                        let j2o = if j2 < k {
                            j2
                        } else {
                            j2 + 1
                        };
                        assert(oj[j2o] == other);
                        assert(final(self).stats()[j2] == os[j2o]);
                        lemma_distinct_index_unique(oj, j2o, other);
                        assert(j == j2o);
                    }
                }
            },
            None => {},
        }
    }

    /// The number of currently active jobs.
    pub fn active_count(&self) -> (r: usize)
        requires
            self.wf(),
        ensures
            r == self.count(),
    {
        self.ids.len()
    }

    /// The id of the `i`-th tracked job; with `status_at` this walks the
    /// registry for status listings.
    pub fn job_at(&self, i: usize) -> (r: &String)
        requires
            self.wf(),
            i < self.count(),
        ensures
            r@ == self.jobs()[i as int],
    {
        &self.ids[i]
    }

    /// The status of the `i`-th tracked job.
    pub fn status_at(&self, i: usize) -> (r: &TransferStatus)
        requires
            self.wf(),
            i < self.count(),
        ensures
            *r == self.stats()[i as int],
            *r == self.job_status(self.jobs()[i as int]),
    {
        proof {
            lemma_distinct_index_unique(self.jobs(), i as int, self.jobs()[i as int]);
        }
        &self.statuses[i]
    }
}

/// In a duplicate-free id sequence, an id names exactly one index.
proof fn lemma_distinct_index_unique(ids: Seq<Seq<char>>, i: int, id: Seq<char>)
    requires
        forall|a: int, b: int| 0 <= a < b < ids.len() ==> ids[a] != ids[b],
        0 <= i < ids.len(),
        ids[i] == id,
    ensures
        forall|j: int| 0 <= j < ids.len() && ids[j] == id ==> j == i,
{
}

} // verus!
