//! Transfer status tags and the progress-percentage formula.
//!
//! A transfer reports its state as a stream of `TransferStatus` values.  Along
//! any job's stream the order is: `Ready` (optional) → zero or more
//! `InProgress` → optional `CopyComplete` → zero or more `Verifying` →
//! `Complete` xor `Failed`.  `Complete` and `Failed` are terminal: nothing
//! follows them.

use vstd::prelude::*;

verus! {

/// Live state of one transfer, as reported over a job's progress stream.
#[derive(Debug, Clone)]
pub enum TransferStatus {
    /// Accepted, not yet producing bytes.
    Ready,
    /// Bytes are flowing; `percentage` is `percentage(bytes_copied, total_bytes)`.
    InProgress {
        total_bytes: u64,
        bytes_copied: u64,
        current_file: String,
        percentage: u8,
        /// Estimated seconds remaining; only engines that know the total size
        /// up front can supply it.
        eta_seconds: Option<u64>,
    },
    /// All bytes written; verification not yet done.
    CopyComplete,
    /// Re-reading the destination: `current` of `total` files checked.
    Verifying { current: u64, total: u64 },
    /// Terminal: the job succeeded.
    Complete { total_bytes: u64, duration_secs: u64 },
    /// Terminal: the job failed, with a human-readable message.
    Failed(String),
}

impl TransferStatus {
    /// `Complete` and `Failed` are the two terminal tags.
    pub open spec fn is_terminal(self) -> bool {
        match self {
            TransferStatus::Complete { .. } => true,
            TransferStatus::Failed(_) => true,
            _ => false,
        }
    }

    /// Executable mirror of `is_terminal`.
    pub fn terminal(&self) -> (r: bool)
        ensures
            r == self.is_terminal(),
    {
        match self {
            TransferStatus::Complete { .. } => true,
            TransferStatus::Failed(_) => true,
            _ => false,
        }
    }
}

/// The percentage carried by an `InProgress` tag, and -1 for any other tag.
pub open spec fn spec_status_percentage(s: TransferStatus) -> int {
    match s {
        TransferStatus::InProgress { percentage, .. } => percentage as int,
        _ => -1,
    }
}

/// What the percentage of a partial copy is: `⌊100·copied/total⌋` clamped to
/// 100, and 100 outright when the total is zero.
pub open spec fn spec_percentage(copied: u64, total: u64) -> int {
    if total == 0 {
        100
    } else if 100 * copied / (total as int) > 100 {
        100
    } else {
        100 * copied / (total as int)
    }
}

/// Progress percentage of `copied` bytes out of `total`.
///
/// A total of zero (empty source, zero-size file) counts as fully copied.
pub fn percentage(copied: u64, total: u64) -> (r: u8)
    ensures
        r == spec_percentage(copied, total),
        r <= 100,
        total == 0 ==> r == 100,
        copied == total ==> r == 100,
{
    if total == 0 {
        100
    } else {
        let wide: u128 = (copied as u128) * 100 / (total as u128);
        proof {
            assert(copied as u128 * 100 == 100 * copied as int);
            assert(wide == 100 * copied / (total as int));
            if copied == total {
                vstd::arithmetic::div_mod::lemma_div_by_multiple(100int, total as int);
            }
            if copied <= total {
                vstd::arithmetic::div_mod::lemma_div_is_ordered(
                    100 * copied as int,
                    100 * total as int,
                    total as int,
                );
                vstd::arithmetic::div_mod::lemma_div_by_multiple(100int, total as int);
            }
        }
        if wide > 100 {
            100
        } else {
            wide as u8
        }
    }
}

/// The percentage never leaves `[0, 100]`.
pub proof fn lemma_percentage_bounds(copied: u64, total: u64)
    ensures
        0 <= spec_percentage(copied, total) <= 100,
{
    if total != 0 {
        vstd::arithmetic::div_mod::lemma_div_is_ordered(0, 100 * copied as int, total as int);
    }
}

/// Within one stream the total is fixed and the copied count only grows, so
/// the reported percentage is monotonically non-decreasing.
pub proof fn lemma_percentage_monotonic(c1: u64, c2: u64, total: u64)
    requires
        c1 <= c2,
    ensures
        spec_percentage(c1, total) <= spec_percentage(c2, total),
{
    if total != 0 {
        vstd::arithmetic::div_mod::lemma_div_is_ordered(
            100 * c1 as int,
            100 * c2 as int,
            total as int,
        );
    }
}

} // verus!
