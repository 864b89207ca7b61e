//! Verification of a finished copy against the digests recorded while copying.
//!
//! For each recorded `FileHash` the caller reads the file at
//! `<destination_root>/<relative_path>` and hands the outcome over as a
//! `DestinationRead`: the file's bytes, or `Missing` when it is not there.
//! The verifier re-hashes the bytes, compares against the recorded digest,
//! collects every mismatch, and either returns the verified totals or an
//! error message listing the first ten mismatches.

use vstd::prelude::*;
use crate::hashing::{blake3_of, hash_bytes, digest_eq};
use crate::text::{spec_dec, append_u64};
use crate::transfer::FileHash;

verus! {

/// A request to verify a finished transfer by re-reading both sides.
#[derive(Debug, Clone)]
pub struct VerifyRequest {
    pub job_id: String,
    pub source: String,
    pub destination: String,
}

/// Result of a successful verification.
#[derive(Debug, Clone)]
pub struct VerifyResult {
    pub files_verified: u64,
    pub bytes_verified: u64,
}

/// Why a file failed verification.
#[derive(Debug, Clone, PartialEq, Eq, Structural)]
pub enum MismatchReason {
    /// The destination's BLAKE3 digest differs from the recorded one.
    HashMismatch,
    /// The file is recorded but absent from the destination.
    MissingInDestination,
}

/// One file that failed verification.
#[derive(Debug, Clone)]
pub struct FileMismatch {
    pub relative_path: String,
    pub reason: MismatchReason,
}

/// What the caller found at one destination path.
pub enum DestinationRead {
    /// The file is not there.
    Missing,
    /// The file's full contents.
    Contents(Vec<u8>),
}

/// A read agrees with its recorded fingerprint.
pub open spec fn spec_read_matches(h: FileHash, r: DestinationRead) -> bool {
    match r {
        DestinationRead::Missing => false,
        DestinationRead::Contents(bytes) => blake3_of(bytes@) == h.hash@,
    }
}

/// The mismatch recorded for a read that disagrees.
pub open spec fn spec_mismatch_of(h: FileHash, r: DestinationRead) -> FileMismatch {
    FileMismatch {
        relative_path: h.relative_path,
        reason: match r {
            DestinationRead::Missing => MismatchReason::MissingInDestination,
            DestinationRead::Contents(_) => MismatchReason::HashMismatch,
        },
    }
}

/// The mismatches among the first `n` recorded files, in order.
pub open spec fn spec_mismatches_upto(
    hs: Seq<FileHash>,
    rs: Seq<DestinationRead>,
    n: int,
) -> Seq<FileMismatch>
    decreases n,
{
    if n <= 0 {
        Seq::empty()
    } else if spec_read_matches(hs[n - 1], rs[n - 1]) {
        spec_mismatches_upto(hs, rs, n - 1)
    } else {
        spec_mismatches_upto(hs, rs, n - 1) + seq![spec_mismatch_of(hs[n - 1], rs[n - 1])]
    }
}

/// All mismatches of a verification run.
pub open spec fn spec_mismatches(hs: Seq<FileHash>, rs: Seq<DestinationRead>) -> Seq<
    FileMismatch,
> {
    spec_mismatches_upto(hs, rs, hs.len() as int)
}

/// Bytes of the matching files among the first `n`.
pub open spec fn spec_bytes_upto(hs: Seq<FileHash>, rs: Seq<DestinationRead>, n: int) -> int
    decreases n,
{
    if n <= 0 {
        0
    } else if spec_read_matches(hs[n - 1], rs[n - 1]) {
        spec_bytes_upto(hs, rs, n - 1) + hs[n - 1].size
    } else {
        spec_bytes_upto(hs, rs, n - 1)
    }
}

/// Sum of the recorded sizes of the first `n` files.
pub open spec fn spec_size_sum_upto(hs: Seq<FileHash>, n: int) -> int
    decreases n,
{
    if n <= 0 {
        0
    } else {
        spec_size_sum_upto(hs, n - 1) + hs[n - 1].size
    }
}

/// Sum of all recorded sizes.
pub open spec fn spec_size_sum(hs: Seq<FileHash>) -> int {
    spec_size_sum_upto(hs, hs.len() as int)
}

/// Verified bytes never exceed the recorded total.
proof fn lemma_bytes_upto_le_size_sum(hs: Seq<FileHash>, rs: Seq<DestinationRead>, n: int)
    ensures
        0 <= spec_bytes_upto(hs, rs, n) <= spec_size_sum_upto(hs, n),
    decreases n,
{
    if n > 0 {
        lemma_bytes_upto_le_size_sum(hs, rs, n - 1);
    }
}

/// The text of one mismatch reason.
pub open spec fn spec_reason_text(r: MismatchReason) -> Seq<char> {
    match r {
        MismatchReason::HashMismatch => "hash mismatch"@,
        MismatchReason::MissingInDestination => "missing in destination"@,
    }
}

/// The listing of the first `n` mismatches, one indented line each.
pub open spec fn spec_mismatch_lines(ms: Seq<FileMismatch>, n: int) -> Seq<char>
    decreases n,
{
    if n <= 0 {
        Seq::empty()
    } else {
        spec_mismatch_lines(ms, n - 1) + "\n  - "@ + ms[n - 1].relative_path@ + ": "@
            + spec_reason_text(ms[n - 1].reason)
    }
}

/// The whole verification-failure message: the mismatch count, the first ten
/// mismatches, and how many more there were.
pub open spec fn spec_mismatch_message(ms: Seq<FileMismatch>) -> Seq<char> {
    let shown = if ms.len() > 10 {
        10int
    } else {
        ms.len() as int
    };
    let head = "Verification failed: "@ + spec_dec(ms.len()) + " file(s) did not match"@
        + spec_mismatch_lines(ms, shown);
    if ms.len() > 10 {
        head + "\n  ... and "@ + spec_dec((ms.len() - 10) as nat) + " more"@
    } else {
        head
    }
}

/// Renders the verification-failure message for a non-empty mismatch list.
pub fn format_mismatch_error(mismatches: &Vec<FileMismatch>) -> (r: String)
    requires
        mismatches@.len() <= u64::MAX,
    ensures
        r@ == spec_mismatch_message(mismatches@),
{
    let mut s = String::new();
    s.append("Verification failed: ");
    append_u64(&mut s, mismatches.len() as u64);
    s.append(" file(s) did not match");
    let shown: usize = if mismatches.len() > 10 {
        10
    } else {
        mismatches.len()
    };
    let mut i: usize = 0;
    while i < shown
        invariant
            i <= shown,
            shown <= mismatches@.len(),
            s@ == "Verification failed: "@ + spec_dec(mismatches@.len())
                + " file(s) did not match"@ + spec_mismatch_lines(mismatches@, i as int),
        decreases shown - i,
    {
        s.append("\n  - ");
        s.append(mismatches[i].relative_path.as_str());
        s.append(": ");
        match mismatches[i].reason {
            MismatchReason::HashMismatch => s.append("hash mismatch"),
            MismatchReason::MissingInDestination => s.append("missing in destination"),
        }
        proof {
            assert(s@ =~= "Verification failed: "@ + spec_dec(mismatches@.len())
                + " file(s) did not match"@ + spec_mismatch_lines(mismatches@, i + 1));
        }
        i += 1;
    }
    if mismatches.len() > 10 {
        s.append("\n  ... and ");
        append_u64(&mut s, (mismatches.len() - 10) as u64);
        s.append(" more");
        proof {
            assert(s@ =~= spec_mismatch_message(mismatches@));
        }
    } else {
        proof {
            assert(s@ =~= spec_mismatch_message(mismatches@));
        }
    }
    s
}

/// Verifies recorded fingerprints against what was read back from the
/// destination, file by file and in order.
///
/// Success is owed exactly when every read matches its fingerprint; the
/// totals then cover all files.  Otherwise the error is the full mismatch
/// message and names each failing file among the first ten.
pub fn verify_reads(hashes: &Vec<FileHash>, reads: &Vec<DestinationRead>) -> (r: Result<
    VerifyResult,
    String,
>)
    requires
        reads@.len() == hashes@.len(),
        hashes@.len() <= u64::MAX,
        spec_size_sum(hashes@) <= u64::MAX,
    ensures
        r is Ok <==> spec_mismatches(hashes@, reads@).len() == 0,
        r is Ok ==> r->Ok_0.files_verified == hashes@.len()
            && r->Ok_0.bytes_verified == spec_size_sum(hashes@),
        r is Err ==> r->Err_0@ == spec_mismatch_message(spec_mismatches(hashes@, reads@)),
{
    let mut mismatches: Vec<FileMismatch> = Vec::new();
    let mut bytes_verified: u64 = 0;
    let mut i: usize = 0;
    while i < hashes.len()
        invariant
            i <= hashes@.len(),
            reads@.len() == hashes@.len(),
            hashes@.len() <= u64::MAX,
            spec_size_sum(hashes@) <= u64::MAX,
            mismatches@ == spec_mismatches_upto(hashes@, reads@, i as int),
            bytes_verified == spec_bytes_upto(hashes@, reads@, i as int),
        decreases hashes@.len() - i,
    {
        proof {
            lemma_bytes_upto_le_size_sum(hashes@, reads@, i as int);
            lemma_size_sum_upto_le(hashes@, i + 1, hashes@.len() as int);
        }
        let h = &hashes[i];
        match &reads[i] {
            DestinationRead::Missing => {
                mismatches.push(FileMismatch {
                    relative_path: h.relative_path.clone(),
                    reason: MismatchReason::MissingInDestination,
                });
                proof {
                    assert(mismatches@ =~= spec_mismatches_upto(hashes@, reads@, i + 1));
                }
            },
            DestinationRead::Contents(bytes) => {
                let computed = hash_bytes(bytes.as_slice());
                if digest_eq(&computed, &h.hash) {
                    bytes_verified = bytes_verified + h.size;
                } else {
                    mismatches.push(FileMismatch {
                        relative_path: h.relative_path.clone(),
                        reason: MismatchReason::HashMismatch,
                    });
                    proof {
                        assert(mismatches@ =~= spec_mismatches_upto(hashes@, reads@, i + 1));
                    }
                }
            },
        }
        i += 1;
    }
    if mismatches.len() > 0 {
        proof {
            lemma_mismatches_all_verified(hashes@, reads@, hashes@.len() as int);
        }
        Err(format_mismatch_error(&mismatches))
    } else {
        proof {
            lemma_mismatches_all_verified(hashes@, reads@, hashes@.len() as int);
        }
        Ok(VerifyResult { files_verified: hashes.len() as u64, bytes_verified })
    }
}

/// When nothing mismatched among the first `n` files, every one of them
/// matched and their full sizes were counted.
proof fn lemma_mismatches_all_verified(hs: Seq<FileHash>, rs: Seq<DestinationRead>, n: int)
    requires
        n <= hs.len(),
        n <= rs.len(),
    ensures
        spec_mismatches_upto(hs, rs, n).len() == 0 ==> spec_bytes_upto(hs, rs, n)
            == spec_size_sum_upto(hs, n),
        spec_mismatches_upto(hs, rs, n).len() == 0 ==> forall|j: int|
            0 <= j < n ==> spec_read_matches(hs[j], rs[j]),
    decreases n,
{
    if n > 0 {
        lemma_mismatches_all_verified(hs, rs, n - 1);
    }
}

/// The size sum is never negative.
proof fn lemma_size_sum_nonneg(hs: Seq<FileHash>, m: int)
    ensures
        0 <= spec_size_sum_upto(hs, m),
    decreases m,
{
    if m > 0 {
        lemma_size_sum_nonneg(hs, m - 1);
    }
}

/// Monotonicity of the size sum in its bound.
proof fn lemma_size_sum_upto_le(hs: Seq<FileHash>, m: int, n: int)
    requires
        m <= n,
    ensures
        spec_size_sum_upto(hs, m) <= spec_size_sum_upto(hs, n),
        0 <= spec_size_sum_upto(hs, m),
    decreases n - m,
{
    lemma_size_sum_nonneg(hs, m);
    if m < n {
        lemma_size_sum_upto_le(hs, m, n - 1);
    }
}

/// An untampered destination verifies: when every read-back file still holds
/// bytes whose BLAKE3 digest is the recorded one, there is no mismatch and
/// every recorded byte is counted.
pub proof fn lemma_verify_untampered(hs: Seq<FileHash>, rs: Seq<DestinationRead>)
    requires
        hs.len() == rs.len(),
        forall|i: int| 0 <= i < hs.len() ==> spec_read_matches(hs[i], rs[i]),
    ensures
        spec_mismatches(hs, rs).len() == 0,
        spec_bytes_upto(hs, rs, hs.len() as int) == spec_size_sum(hs),
{
    lemma_verify_untampered_upto(hs, rs, hs.len() as int);
}

/// Round trip of copy and verification: fingerprints recorded while copying
/// some byte contents verify against a destination that still holds exactly
/// those bytes.
pub proof fn lemma_copy_verify_round_trip(
    hs: Seq<FileHash>,
    copied: Seq<Seq<u8>>,
    rs: Seq<DestinationRead>,
)
    requires
        hs.len() == copied.len(),
        hs.len() == rs.len(),
        forall|i: int| 0 <= i < hs.len() ==> (#[trigger] hs[i].hash)@ == blake3_of(copied[i]),
        forall|i: int|
            0 <= i < rs.len() ==> (#[trigger] rs[i] matches DestinationRead::Contents(b)
                && b@ == copied[i]),
    ensures
        spec_mismatches(hs, rs).len() == 0,
{
    assert forall|i: int| 0 <= i < hs.len() implies spec_read_matches(hs[i], rs[i]) by {
        assert(rs[i] matches DestinationRead::Contents(b) && b@ == copied[i]);
    }
    lemma_verify_untampered(hs, rs);
}

proof fn lemma_verify_untampered_upto(hs: Seq<FileHash>, rs: Seq<DestinationRead>, n: int)
    requires
        n <= hs.len() == rs.len(),
        forall|i: int| 0 <= i < hs.len() ==> spec_read_matches(hs[i], rs[i]),
    ensures
        spec_mismatches_upto(hs, rs, n).len() == 0,
        spec_bytes_upto(hs, rs, n) == spec_size_sum_upto(hs, n),
    decreases n,
{
    if n > 0 {
        lemma_verify_untampered_upto(hs, rs, n - 1);
    }
}

} // verus!
