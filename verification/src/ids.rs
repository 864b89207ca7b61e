//! Fresh identifiers and timestamps for jobs and log entries.
//!
//! Job ids and log-entry ids are time-ordered UUIDs; destination directories
//! are named after the local time of the attach.  Both depend on the clock,
//! so nothing is promised about their values beyond their shape.

use vstd::prelude::*;

verus! {

/// Relies on uuid::Uuid::now_v7 and its Display form: a fresh time-ordered
/// id, rendered in the 36-character hyphenated form.  The call aborts if the
/// system clock reads before the Unix epoch or the operating system's
/// randomness source fails — machine-state failures on a par with running
/// out of memory.
#[verifier::external_body]
pub fn new_uuid_string() -> (r: String)
    ensures
        r@.len() == 36,
{
    uuid::Uuid::now_v7().to_string()
}

/// Relies on chrono::Local::now and DateTime::format: the local time,
/// rendered as `YYYY-MM-DD_THHMM_SS`.  The value depends on the clock; all
/// that is promised is the rendering's minimum width (a year has at least
/// four digits, the other fields are fixed-width).  As with fresh ids, a
/// system clock before the Unix epoch aborts the call.
#[verifier::external_body]
pub fn local_timestamp() -> (r: String)
    ensures
        r@.len() >= 19,
{
    chrono::Local::now().format("%Y-%m-%d_T%H%M_%S").to_string()
}

} // verus!
