//! The append-only status log of one job.
//!
//! A job's history starts with the `ready` entry written when the job is
//! created and only ever grows at the end.  A terminal entry (`complete` or
//! `failed`) closes the log: nothing is accepted after it, so a job reaches a
//! terminal state at most once.  The job's current status is the status of
//! the newest entry.

use vstd::prelude::*;
use crate::models::{JobStatus, JobStatusEntry};

verus! {

/// The status log of one job, oldest entry first.
pub struct JobHistory {
    entries: Vec<JobStatusEntry>,
}

impl JobHistory {
    /// The logged entries, oldest first.
    pub closed spec fn view_entries(self) -> Seq<JobStatusEntry> {
        self.entries@
    }

    /// A log is well formed when it starts with the `ready` entry and only
    /// its newest entry may be terminal.
    pub open spec fn wf(self) -> bool {
        &&& self.view_entries().len() >= 1
        &&& self.view_entries()[0].status == JobStatus::Ready
        &&& forall|i: int|
            0 <= i < self.view_entries().len() - 1 ==> !(#[trigger] self.view_entries()[i]).status.is_terminal()
    }

    /// The status of the newest entry.
    pub open spec fn spec_current(self) -> JobStatus {
        self.view_entries().last().status
    }

    /// Whether the log is closed by a terminal entry.
    pub open spec fn closed_log(self) -> bool {
        self.spec_current().is_terminal()
    }

    /// Opens a job's log with its initial `ready` entry.
    pub fn start(first: JobStatusEntry) -> (r: JobHistory)
        requires
            first.status == JobStatus::Ready,
        ensures
            r.wf(),
            r.view_entries().len() == 1,
            r.view_entries()[0] == first,
            !r.closed_log(),
    {
        let mut entries: Vec<JobStatusEntry> = Vec::new();
        entries.push(first);
        JobHistory { entries }
    }

    /// Appends one state transition.
    ///
    /// The entry is accepted exactly when the log is still open; a log closed
    /// by a terminal entry never changes again.
    pub fn append(&mut self, entry: JobStatusEntry) -> (accepted: bool)
        requires
            old(self).wf(),
        ensures
            final(self).wf(),
            accepted <==> !old(self).closed_log(),
            accepted ==> final(self).view_entries() == old(self).view_entries().push(entry),
            !accepted ==> *final(self) == *old(self),
    {
        let n = self.entries.len();
        if self.entries[n - 1].status.terminal() {
            false
        } else {
            self.entries.push(entry);
            true
        }
    }

    /// The job's current status: by definition, the newest entry's status.
    pub fn current_status(&self) -> (r: JobStatus)
        requires
            self.wf(),
        ensures
            r == self.spec_current(),
            r == self.view_entries().last().status,
    {
        let n = self.entries.len();
        self.entries[n - 1].status
    }

    /// How many entries the log holds.
    pub fn len(&self) -> (r: usize)
        ensures
            r == self.view_entries().len(),
    {
        self.entries.len()
    }

    /// The `i`-th entry, oldest first.
    pub fn entry_at(&self, i: usize) -> (r: &JobStatusEntry)
        requires
            i < self.view_entries().len(),
        ensures
            *r == self.view_entries()[i as int],
    {
        &self.entries[i]
    }
}

/// A job that reached a terminal status has at least two log entries: the
/// initial `ready` entry and the terminal one.
pub proof fn lemma_terminal_needs_two_entries(h: JobHistory)
    requires
        h.wf(),
        h.closed_log(),
    ensures
        h.view_entries().len() >= 2,
{
    assert(!h.view_entries()[0].status.is_terminal() || h.view_entries().len() >= 2);
}

/// No job has more than one terminal log entry.
pub proof fn lemma_at_most_one_terminal(h: JobHistory, i: int, j: int)
    requires
        h.wf(),
        0 <= i < h.view_entries().len(),
        0 <= j < h.view_entries().len(),
        h.view_entries()[i].status.is_terminal(),
        h.view_entries()[j].status.is_terminal(),
    ensures
        i == j,
{
}

} // verus!
