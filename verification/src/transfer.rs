//! Transfer engine types: requests, results, per-file fingerprints, and the
//! guard that keeps an existing destination from being overwritten.

use vstd::prelude::*;
use crate::ownership::FileOwner;
use crate::hashing::blake3_of;
use crate::status::TransferStatus;

verus! {

/// Which transfer implementation a daemon run uses.
#[derive(Debug, Clone, PartialEq, Eq, Structural)]
pub enum TransferEngineType {
    /// Native file copy with inline hashing.
    NativeCopy,
    /// External recursive-copy utility run as a child process.
    Rsync,
    /// Timed synthetic progress for tests and simulation.
    Simulated,
}

/// Immutable input to a transfer engine.
#[derive(Debug, Clone)]
pub struct TransferRequest {
    pub job_id: String,
    pub source: String,
    pub destination: String,
    /// Owner for transferred files; none means they stay with the process user.
    pub owner: Option<FileOwner>,
}

/// Fingerprint of one regular file captured while it was copied.
#[derive(Debug, Clone)]
pub struct FileHash {
    /// Path relative to the destination root.
    pub relative_path: String,
    /// 32-byte BLAKE3 digest of the file's contents.
    pub hash: [u8; 32],
    /// File size in bytes.
    pub size: u64,
}

impl FileHash {
    /// The digest really is the BLAKE3 digest of `content`.
    pub open spec fn fingerprints(self, content: Seq<u8>) -> bool {
        self.hash@ == blake3_of(content)
    }
}

/// Output of a successful transfer.
#[derive(Debug, Clone)]
pub struct TransferResult {
    /// Total bytes transferred.
    pub total_bytes: u64,
    /// Wall-clock duration of the transfer in seconds.
    pub duration_secs: u64,
    /// Per-file digests captured during copy; engines that verify internally
    /// (or cannot hash) return none, and verification is skipped for them.
    pub file_hashes: Option<Vec<FileHash>>,
}

/// Native copy engine configuration.
pub struct NativeCopyEngine {
    /// Whether to fsync each file after writing (safer but slower).
    pub sync_files: bool,
}

impl Default for NativeCopyEngine {
    /// Syncing each file is the default.
    fn default() -> (r: Self)
        ensures
            r.sync_files,
    {
        NativeCopyEngine { sync_files: true }
    }
}

/// External-process copy engine marker.
pub struct RsyncEngine;

/// Synthetic engine configuration.
pub struct SimulatedEngine {
    pub speed_mb_per_sec: u64,
}

impl Default for SimulatedEngine {
    fn default() -> (r: Self)
        ensures
            r.speed_mb_per_sec == 100,
    {
        SimulatedEngine { speed_mb_per_sec: 100 }
    }
}

/// The synthetic transfer's ETA in whole seconds: the remaining bytes over
/// the observed rate, rounded up.  Known only once a second of history
/// exists and bytes have moved, and never after the last byte.
pub open spec fn spec_sim_eta(copied: int, total: int, elapsed_ms: int) -> Option<u64> {
    if elapsed_ms >= 1000 && 0 < copied < total {
        let n = (total - copied) * elapsed_ms;
        let d = copied * 1000;
        let eta = n / d + if n % d == 0 {
            0int
        } else {
            1int
        };
        if eta <= u64::MAX {
            Some(eta as u64)
        } else {
            Some(u64::MAX)
        }
    } else {
        None
    }
}

impl SimulatedEngine {
    /// One half-second tick of the synthetic transfer: the byte counter
    /// advances by half a second's worth of the configured speed, clamped at
    /// the total, and the tag reports the new counter, its percentage and
    /// the estimated seconds remaining.
    pub fn sim_tick(&self, copied: u64, total: u64, elapsed_ms: u64) -> (r: (u64, TransferStatus))
        requires
            copied < total,
            self.speed_mb_per_sec * 524288 + copied <= u64::MAX,
        ensures
            ({
                let chunk = self.speed_mb_per_sec * 524288int;
                r.0 == if copied + chunk > total {
                    total as int
                } else {
                    copied + chunk
                }
            }),
            r.0 > copied || self.speed_mb_per_sec == 0,
            (r.1 matches TransferStatus::InProgress {
                total_bytes,
                bytes_copied,
                current_file,
                percentage,
                eta_seconds,
            } && total_bytes == total && bytes_copied == r.0 && current_file@
                == "simulated_file.dat"@ && percentage == crate::status::spec_percentage(
                r.0,
                total,
            ) && eta_seconds == spec_sim_eta(r.0 as int, total as int, elapsed_ms as int)),
    {
        let chunk = self.speed_mb_per_sec * 524288;
        let advanced = if total - copied < chunk {
            total
        } else {
            copied + chunk
        };
        let pct = crate::status::percentage(advanced, total);
        let eta: Option<u64> = if elapsed_ms >= 1000 && 0 < advanced && advanced < total {
            let remaining = (total - advanced) as u128;
            let denom = (advanced as u128) * 1000;
            proof {
                assert((remaining as int) * (elapsed_ms as int) <= 0xffff_ffff_ffff_ffff
                    * 0xffff_ffff_ffff_ffff) by (nonlinear_arith)
                    requires
                        0 <= remaining as int <= 0xffff_ffff_ffff_ffff,
                        0 <= elapsed_ms as int <= 0xffff_ffff_ffff_ffff,
                ;
            }
            let numer = remaining * (elapsed_ms as u128);
            let floor_part = numer / denom;
            let value = if numer % denom == 0 {
                floor_part
            } else {
                floor_part + 1
            };
            if value > u64::MAX as u128 {
                Some(u64::MAX)
            } else {
                Some(value as u64)
            }
        } else {
            None
        };
        let status = TransferStatus::InProgress {
            total_bytes: total,
            bytes_copied: advanced,
            current_file: "simulated_file.dat".to_owned(),
            percentage: pct,
            eta_seconds: eta,
        };
        (advanced, status)
    }
}

/// The message a transfer fails with when its destination already exists.
pub open spec fn spec_exists_message(destination: Seq<char>) -> Seq<char> {
    "Destination already exists: "@ + destination + ". Refusing to overwrite."@
}

/// Refuses to write over an existing destination.
///
/// `destination_exists` is what the filesystem reported for the destination
/// path.  The transfer may proceed only when it was absent; an existing
/// destination yields exactly the refusal message, and nothing was modified.
pub fn check_destination(destination: &str, destination_exists: bool) -> (r: Result<
    (),
    String,
>)
    ensures
        r is Err <==> destination_exists,
        r is Err ==> r->Err_0@ == spec_exists_message(destination@),
{
    if destination_exists {
        let mut msg = String::new();
        msg.append("Destination already exists: ");
        msg.append(destination);
        msg.append(". Refusing to overwrite.");
        proof {
            assert(msg@ =~= spec_exists_message(destination@));
        }
        Err(msg)
    } else {
        Ok(())
    }
}

} // verus!
