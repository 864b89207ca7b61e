//! Planning and bookkeeping of the native copy engine.
//!
//! The engine copies a source tree in three phases: scan the tree, create the
//! directories, then copy the files in 128 KiB chunks while feeding every
//! chunk to a BLAKE3 hasher, so a later verification never has to re-read the
//! slow source medium.  The filesystem reads and writes happen outside this
//! library; it receives what was read (entry sizes, chunk bytes, error
//! classifications) and decides everything else: what counts as the device
//! having been removed, when a progress tag is emitted and with what
//! percentage, which per-file errors abort the transfer and which are
//! collected, and what the final result or failure message is.

use vstd::prelude::*;
use crate::hashing::{blake3_of, hasher_finalize, hasher_input, hasher_new, hasher_update};
use crate::status::{
    lemma_percentage_bounds,
    lemma_percentage_monotonic,
    spec_percentage,
    spec_status_percentage,
    percentage,
    TransferStatus,
};
use crate::text::{append_u64, spec_dec};
use crate::transfer::FileHash;

verus! {

/// Buffer size for file I/O, in bytes (128 KiB).
pub const BUFFER_SIZE: usize = 131072;

/// Bytes of progress between two `InProgress` tags (1 MiB).
pub const PROGRESS_UPDATE_INTERVAL: u64 = 1048576;

/// `EIO`: input/output error.
pub const ERRNO_EIO: i32 = 5;

/// `ENXIO`: no such device or address.
pub const ERRNO_ENXIO: i32 = 6;

/// `ENODEV`: no such device.
pub const ERRNO_ENODEV: i32 = 19;

/// `ENOMEDIUM`: no medium found.
pub const ERRNO_ENOMEDIUM: i32 = 123;

/// `EMEDIUMTYPE`: wrong medium type.
pub const ERRNO_EMEDIUMTYPE: i32 = 124;

/// The kind of an I/O error, as std reports it.
#[derive(Debug, Clone, Copy, PartialEq, Eq, Structural)]
pub enum IoKind {
    NotFound,
    PermissionDenied,
    BrokenPipe,
    ConnectionReset,
    ConnectionAborted,
    NotConnected,
    /// Any other kind; for these the raw OS error number decides.
    Other,
}

/// Whether an I/O error means the device went away: either its kind is one
/// seen when the backing device disappears, or its error number names a
/// device-level failure.  Permission errors never count.
pub open spec fn spec_device_removed(kind: IoKind, errno: Option<i32>) -> bool {
    match kind {
        IoKind::NotFound => true,
        IoKind::PermissionDenied => false,
        IoKind::BrokenPipe => true,
        IoKind::ConnectionReset => true,
        IoKind::ConnectionAborted => true,
        IoKind::NotConnected => true,
        IoKind::Other => match errno {
            Some(n) => n == ERRNO_EIO || n == ERRNO_ENODEV || n == ERRNO_ENXIO
                || n == ERRNO_ENOMEDIUM || n == ERRNO_EMEDIUMTYPE,
            None => false,
        },
    }
}

/// Classifies an I/O error, given its kind and raw OS error number, as
/// device-removal or not.  A removal error aborts the whole transfer; other
/// errors are collected per file.
pub fn is_device_removed_error(kind: IoKind, errno: Option<i32>) -> (r: bool)
    ensures
        r == spec_device_removed(kind, errno),
{
    match kind {
        IoKind::NotFound => true,
        IoKind::PermissionDenied => false,
        IoKind::BrokenPipe => true,
        IoKind::ConnectionReset => true,
        IoKind::ConnectionAborted => true,
        IoKind::NotConnected => true,
        IoKind::Other => match errno {
            Some(n) => n == ERRNO_EIO || n == ERRNO_ENODEV || n == ERRNO_ENXIO
                || n == ERRNO_ENOMEDIUM || n == ERRNO_EMEDIUMTYPE,
            None => false,
        },
    }
}

/// One regular file found by the scan.
#[derive(Debug, Clone)]
pub struct ScanFile {
    /// Path relative to the source root.
    pub relative_path: String,
    /// Size in bytes at scan time.
    pub size: u64,
}

/// Sum of the sizes of the first `n` scanned files.
pub open spec fn spec_scan_total(files: Seq<ScanFile>, n: int) -> int
    decreases n,
{
    if n <= 0 {
        0
    } else {
        spec_scan_total(files, n - 1) + files[n - 1].size
    }
}

/// The sum over the first `n` files reads only those files.
proof fn lemma_scan_total_prefix(a: Seq<ScanFile>, b: Seq<ScanFile>, n: int)
    requires
        forall|i: int| 0 <= i < n ==> a[i] == b[i],
    ensures
        spec_scan_total(a, n) == spec_scan_total(b, n),
    decreases n,
{
    if n > 0 {
        lemma_scan_total_prefix(a, b, n - 1);
    }
}

/// Phase-1 output: the regular files and directories of the source tree.
///
/// Symlinks and special files are never recorded.  Directories appear parents
/// before children, the order they must be created in.
pub struct Scanner {
    pub files: Vec<ScanFile>,
    pub directories: Vec<String>,
    pub total_bytes: u64,
}

impl Scanner {
    /// The running total really is the sum of the recorded sizes.
    pub open spec fn wf(self) -> bool {
        self.total_bytes == spec_scan_total(self.files@, self.files@.len() as int)
    }

    /// An empty scan.
    pub fn new() -> (r: Scanner)
        ensures
            r.wf(),
            r.files@.len() == 0,
            r.directories@.len() == 0,
            r.total_bytes == 0,
    {
        Scanner { files: Vec::new(), directories: Vec::new(), total_bytes: 0 }
    }

    /// Records a directory, in creation order.
    pub fn record_dir(&mut self, relative_path: String)
        ensures
            final(self).directories@ == old(self).directories@.push(relative_path),
            final(self).files == old(self).files,
            final(self).total_bytes == old(self).total_bytes,
            old(self).wf() ==> final(self).wf(),
    {
        self.directories.push(relative_path);
    }

    /// Records a regular file and adds its size to the total.
    pub fn record_file(&mut self, relative_path: String, size: u64)
        requires
            old(self).total_bytes + size <= u64::MAX,
    ensures
            final(self).files@ == old(self).files@.push(
                (ScanFile { relative_path, size }),
            ),
            final(self).directories == old(self).directories,
            final(self).total_bytes == old(self).total_bytes + size,
            old(self).wf() ==> final(self).wf(),
    {
        self.files.push(ScanFile { relative_path, size });
        self.total_bytes = self.total_bytes + size;
        proof {
            lemma_scan_total_prefix(
                old(self).files@,
                self.files@,
                old(self).files@.len() as int,
            );
        }
    }
}

/// Copy state of a single file: bytes counted and hashed as they stream by.
pub struct FileCopy {
    hasher: blake3::Hasher,
    bytes_written: u64,
}

impl FileCopy {
    /// The bytes that have passed through so far.
    pub closed spec fn content(self) -> Seq<u8> {
        hasher_input(self.hasher)
    }

    /// The byte counter agrees with the content.
    pub closed spec fn wf(self) -> bool {
        self.bytes_written == self.content().len()
    }

    /// Starts a file with nothing copied yet.
    pub fn new() -> (r: FileCopy)
        ensures
            r.wf(),
            r.content() == Seq::<u8>::empty(),
    {
        let r = FileCopy { hasher: hasher_new(), bytes_written: 0 };
        r
    }

    /// Accounts for one chunk that was read from the source and is about to
    /// be written, unchanged, to the destination.
    pub fn push_chunk(&mut self, chunk: &[u8])
        requires
            old(self).wf(),
            old(self).content().len() + chunk@.len() <= u64::MAX,
        ensures
            final(self).wf(),
            final(self).content() == old(self).content() + chunk@,
    {
        hasher_update(&mut self.hasher, chunk);
        self.bytes_written = self.bytes_written + chunk.len() as u64;
    }

    /// The number of bytes seen so far.
    pub fn bytes(&self) -> (r: u64)
        requires
            self.wf(),
        ensures
            r == self.content().len(),
    {
        self.bytes_written
    }

    /// Closes the file: its fingerprint records exactly the bytes that were
    /// copied, under the given relative path.
    pub fn finish(self, relative_path: String) -> (h: FileHash)
        requires
            self.wf(),
        ensures
            h.relative_path == relative_path,
            h.hash@ == blake3_of(self.content()),
            h.size == self.content().len(),
    {
        let digest = hasher_finalize(&self.hasher);
        FileHash { relative_path, hash: digest, size: self.bytes_written }
    }
}

/// A per-file error that did not abort the transfer.
#[derive(Debug, Clone)]
pub struct CopyError {
    pub file: String,
    pub message: String,
}

/// How the copy of one file failed.
#[derive(Debug, Clone)]
pub struct FileCopyError {
    pub message: String,
    pub is_device_removed: bool,
}

/// The message a transfer aborts with when the device disappears.
pub open spec fn spec_removed_message(file: Seq<char>) -> Seq<char> {
    "Device removed during transfer at file: "@ + file
}

/// Renders the device-removal abort message.
pub fn removed_message(file: &str) -> (r: String)
    ensures
        r@ == spec_removed_message(file@),
{
    let mut s = String::new();
    s.append("Device removed during transfer at file: ");
    s.append(file);
    s
}

/// One collected error, as a line of the failure summary.
pub open spec fn spec_error_line(e: CopyError) -> Seq<char> {
    "  - "@ + e.file@ + ": "@ + e.message@
}

/// The first `n` error lines joined by newlines.
pub open spec fn spec_error_lines(es: Seq<CopyError>, n: int) -> Seq<char>
    decreases n,
{
    if n <= 0 {
        Seq::empty()
    } else if n == 1 {
        spec_error_line(es[0])
    } else {
        spec_error_lines(es, n - 1) + "\n"@ + spec_error_line(es[n - 1])
    }
}

/// The failure summary of a transfer that finished with per-file errors: the
/// count, the first ten errors, and how many more there were.
pub open spec fn spec_error_summary(es: Seq<CopyError>) -> Seq<char> {
    let shown = if es.len() > 10 {
        10int
    } else {
        es.len() as int
    };
    let head = "Transfer completed with "@ + spec_dec(es.len()) + " error(s):\n"@
        + spec_error_lines(es, shown);
    if es.len() > 10 {
        head + "\n  ... and "@ + spec_dec((es.len() - 10) as nat) + " more errors"@
    } else {
        head
    }
}

/// Renders the failure summary for a non-empty error list.
pub fn error_summary(errors: &Vec<CopyError>) -> (r: String)
    requires
        errors@.len() <= u64::MAX,
    ensures
        r@ == spec_error_summary(errors@),
{
    let mut s = String::new();
    s.append("Transfer completed with ");
    append_u64(&mut s, errors.len() as u64);
    s.append(" error(s):\n");
    let shown: usize = if errors.len() > 10 {
        10
    } else {
        errors.len()
    };
    let mut i: usize = 0;
    while i < shown
        invariant
            i <= shown,
            shown <= errors@.len(),
            s@ == "Transfer completed with "@ + spec_dec(errors@.len()) + " error(s):\n"@
                + spec_error_lines(errors@, i as int),
        decreases shown - i,
    {
        if i > 0 {
            s.append("\n");
        }
        s.append("  - ");
        s.append(errors[i].file.as_str());
        s.append(": ");
        s.append(errors[i].message.as_str());
        proof {
            assert(s@ =~= "Transfer completed with "@ + spec_dec(errors@.len())
                + " error(s):\n"@ + spec_error_lines(errors@, i + 1));
        }
        i += 1;
    }
    if errors.len() > 10 {
        s.append("\n  ... and ");
        append_u64(&mut s, (errors.len() - 10) as u64);
        s.append(" more errors");
        proof {
            assert(s@ =~= spec_error_summary(errors@));
        }
    } else {
        proof {
            assert(s@ =~= spec_error_summary(errors@));
        }
    }
    s
}

/// Phase-3 bookkeeping of one transfer: the byte counter, the throttle for
/// progress tags, the fingerprints of the files copied so far, and the
/// per-file errors collected so far.
pub struct CopyRun {
    /// Total bytes the scan found; fixed for the whole run.
    pub total_bytes: u64,
    /// Bytes copied so far.
    pub bytes_copied: u64,
    /// Value of `bytes_copied` when the last progress tag was emitted.
    pub last_progress_update: u64,
    /// Fingerprints of the files copied so far, in copy order.
    pub hashes: Vec<FileHash>,
    /// Errors that did not abort the transfer.
    pub errors: Vec<CopyError>,
}

impl CopyRun {
    /// Starts a run over `total_bytes` bytes of scanned files.
    pub fn new(total_bytes: u64) -> (r: CopyRun)
        ensures
            r.total_bytes == total_bytes,
            r.bytes_copied == 0,
            r.last_progress_update == 0,
            r.hashes@.len() == 0,
            r.errors@.len() == 0,
    {
        CopyRun {
            total_bytes,
            bytes_copied: 0,
            last_progress_update: 0,
            hashes: Vec::new(),
            errors: Vec::new(),
        }
    }

    /// A progress tag is due when at least `PROGRESS_UPDATE_INTERVAL` bytes
    /// arrived since the tag last emitted at `last` bytes, or the transfer's
    /// last byte was copied.
    pub open spec fn spec_progress_due(copied: int, last: int, total: int) -> bool {
        copied - last >= PROGRESS_UPDATE_INTERVAL || copied == total
    }

    /// Records one successfully copied file.
    ///
    /// Returns the progress tag to emit, if one is due: an `InProgress` whose
    /// percentage is the clamped `⌊100·copied/total⌋`, never above 100 and
    /// never below any percentage this run reported before.
    pub fn file_copied(&mut self, fingerprint: FileHash, current_file: &str) -> (progress:
        Option<TransferStatus>)
        requires
            old(self).bytes_copied + fingerprint.size <= u64::MAX,
            old(self).last_progress_update <= old(self).bytes_copied,
        ensures
            final(self).total_bytes == old(self).total_bytes,
            final(self).bytes_copied == old(self).bytes_copied + fingerprint.size,
            final(self).hashes@ == old(self).hashes@.push(fingerprint),
            final(self).errors == old(self).errors,
            final(self).last_progress_update <= final(self).bytes_copied,
            progress is Some <==> CopyRun::spec_progress_due(
                final(self).bytes_copied as int,
                old(self).last_progress_update as int,
                final(self).total_bytes as int,
            ),
            progress is Some ==> final(self).last_progress_update == final(self).bytes_copied,
            progress is None ==> final(self).last_progress_update
                == old(self).last_progress_update,
            progress matches Some(p) ==> (p matches TransferStatus::InProgress {
                total_bytes,
                bytes_copied,
                current_file: f,
                percentage,
                eta_seconds,
            } && total_bytes == final(self).total_bytes
                && bytes_copied == final(self).bytes_copied
                && f@ == current_file@
                && percentage == spec_percentage(final(self).bytes_copied, final(self).total_bytes)
                && eta_seconds is None),
    {
        let size = fingerprint.size;
        self.hashes.push(fingerprint);
        self.bytes_copied = self.bytes_copied + size;
        let due = self.bytes_copied - self.last_progress_update >= PROGRESS_UPDATE_INTERVAL
            || self.bytes_copied == self.total_bytes;
        if due {
            let pct = percentage(self.bytes_copied, self.total_bytes);
            self.last_progress_update = self.bytes_copied;
            Some(
                TransferStatus::InProgress {
                    total_bytes: self.total_bytes,
                    bytes_copied: self.bytes_copied,
                    current_file: current_file.to_owned(),
                    percentage: pct,
                    eta_seconds: None,
                },
            )
        } else {
            None
        }
    }

    /// Records one failed file.
    ///
    /// A device-removal failure aborts the whole transfer: the result is the
    /// abort message and nothing of the run changes.  Any other failure is
    /// collected and the copy goes on.
    pub fn file_failed(&mut self, current_file: String, failure: &FileCopyError) -> (abort:
        Option<String>)
        ensures
            final(self).total_bytes == old(self).total_bytes,
            final(self).bytes_copied == old(self).bytes_copied,
            final(self).last_progress_update == old(self).last_progress_update,
            final(self).hashes == old(self).hashes,
            abort is Some <==> failure.is_device_removed,
            abort matches Some(m) ==> m@ == spec_removed_message(current_file@)
                && final(self).errors == old(self).errors,
            abort is None ==> final(self).errors@ == old(self).errors@.push(
                (CopyError { file: current_file, message: failure.message }),
            ),
    {
        if failure.is_device_removed {
            Some(removed_message(current_file.as_str()))
        } else {
            self.errors.push(CopyError { file: current_file, message: failure.message.clone() });
            None
        }
    }

    /// Closes the run: the copied bytes and fingerprints when every file made
    /// it, else the summary of the collected errors.
    pub fn finish(self) -> (r: Result<(u64, Vec<FileHash>), String>)
        requires
            self.errors@.len() <= u64::MAX,
        ensures
            r is Ok <==> self.errors@.len() == 0,
            r matches Ok(ok) ==> ok.0 == self.bytes_copied && ok.1 == self.hashes,
            r matches Err(m) ==> m@ == spec_error_summary(self.errors@),
    {
        if self.errors.len() == 0 {
            Ok((self.bytes_copied, self.hashes))
        } else {
            Err(error_summary(&self.errors))
        }
    }
}

/// What reading one source file yielded: its bytes, or a classified failure.
pub enum SourceRead {
    Content(Vec<u8>),
    Failure(FileCopyError),
}

/// Whether a read failed with a device-removal error.
pub open spec fn spec_read_removal(r: SourceRead) -> bool {
    match r {
        SourceRead::Failure(e) => e.is_device_removed,
        _ => false,
    }
}

/// The first index at or after `i` whose read failed with device removal, or
/// the length when none did.
pub open spec fn spec_first_removal(reads: Seq<SourceRead>, i: int) -> int
    decreases reads.len() - i,
{
    if i < 0 || i >= reads.len() {
        reads.len() as int
    } else if spec_read_removal(reads[i]) {
        i
    } else {
        spec_first_removal(reads, i + 1)
    }
}

/// When no removal occurs before `i`, the first removal from the start is the
/// first removal from `i`.
proof fn lemma_first_removal_skip(reads: Seq<SourceRead>, i: int)
    requires
        0 <= i <= reads.len(),
        forall|j: int| 0 <= j < i ==> !spec_read_removal(reads[j]),
    ensures
        spec_first_removal(reads, 0) == spec_first_removal(reads, i),
    decreases i,
{
    if i > 0 {
        lemma_first_removal_skip(reads, i - 1);
    }
}

/// Errors collected among the first `n` reads: each non-removal failure,
/// under its file's relative path, in order.
pub open spec fn spec_copy_errors(
    files: Seq<ScanFile>,
    reads: Seq<SourceRead>,
    n: int,
) -> Seq<CopyError>
    decreases n,
{
    if n <= 0 {
        Seq::empty()
    } else {
        let rest = spec_copy_errors(files, reads, n - 1);
        match reads[n - 1] {
            SourceRead::Failure(e) => if !e.is_device_removed {
                rest + seq![CopyError { file: files[n - 1].relative_path, message: e.message }]
            } else {
                rest
            },
            _ => rest,
        }
    }
}

/// There are never more collected errors than reads.
proof fn lemma_copy_errors_len(files: Seq<ScanFile>, reads: Seq<SourceRead>, n: int)
    ensures
        spec_copy_errors(files, reads, n).len() <= (if n <= 0 { 0int } else { n }),
    decreases n,
{
    if n > 0 {
        lemma_copy_errors_len(files, reads, n - 1);
    }
}

/// When no error was collected among the first `n` reads and none of them was
/// a removal, every one of them was content.
proof fn lemma_no_errors_all_content(files: Seq<ScanFile>, reads: Seq<SourceRead>, n: int)
    requires
        n <= reads.len(),
    ensures
        spec_copy_errors(files, reads, n).len() == 0 ==> forall|j: int|
            0 <= j < n ==> (reads[j] is Content || spec_read_removal(reads[j])),
    decreases n,
{
    if n > 0 {
        lemma_no_errors_all_content(files, reads, n - 1);
    }
}

/// Bytes of the successfully read files among the first `n`.
pub open spec fn spec_copied_bytes(reads: Seq<SourceRead>, n: int) -> int
    decreases n,
{
    if n <= 0 {
        0
    } else {
        spec_copied_bytes(reads, n - 1) + (match reads[n - 1] {
            SourceRead::Content(b) => b@.len() as int,
            _ => 0,
        })
    }
}

proof fn lemma_copied_bytes_nonneg(reads: Seq<SourceRead>, m: int)
    ensures
        0 <= spec_copied_bytes(reads, m),
    decreases m,
{
    if m > 0 {
        lemma_copied_bytes_nonneg(reads, m - 1);
    }
}

proof fn lemma_copied_bytes_mono(reads: Seq<SourceRead>, m: int, n: int)
    requires
        m <= n,
    ensures
        spec_copied_bytes(reads, m) <= spec_copied_bytes(reads, n),
    decreases n - m,
{
    if m < n {
        lemma_copied_bytes_mono(reads, m, n - 1);
    }
}

/// Phase 3 over an already-read source: copies file after file, hashing each,
/// emitting throttled progress, collecting non-removal failures and aborting
/// on the first removal.
///
/// On success there is exactly one fingerprint per file, in order, each
/// recording the file's relative path, its byte count and the BLAKE3 digest
/// of its content.  A removal at file `k` yields the abort message naming
/// that file; otherwise collected errors yield the summary message.  Every
/// emitted tag is an `InProgress` whose percentage stays within 0..=100 and
/// never decreases along the stream.
#[verifier::rlimit(50)]
pub fn copy_from_reads(files: &Vec<ScanFile>, reads: &Vec<SourceRead>, total_bytes: u64) -> (r: (
    Result<(u64, Vec<FileHash>), String>,
    Vec<TransferStatus>,
))
    requires
        files@.len() == reads@.len(),
        spec_copied_bytes(reads@, reads@.len() as int) <= u64::MAX,
    ensures
        ({
            let n = files@.len() as int;
            let k = spec_first_removal(reads@, 0);
            let errs = spec_copy_errors(files@, reads@, n);
            &&& (r.0 is Ok <==> (k == n && errs.len() == 0))
            &&& (r.0 matches Ok(ok) ==> ok.0 == spec_copied_bytes(reads@, n) && ok.1@.len() == n
                && (forall|i: int| 0 <= i < n ==> #[trigger] reads@[i] is Content) && (forall|
                i: int,
            |
                0 <= i < n ==> #[trigger] ok.1@[i].relative_path == files@[i].relative_path
                    && ok.1@[i].hash@ == blake3_of(reads@[i]->Content_0@) && ok.1@[i].size
                    == reads@[i]->Content_0@.len()))
            &&& (k < n ==> (r.0 matches Err(m) && m@ == spec_removed_message(
                files@[k].relative_path@,
            )))
            &&& (k == n && errs.len() > 0 ==> (r.0 matches Err(m) && m@ == spec_error_summary(
                errs,
            )))
            &&& (forall|a: int|
                0 <= a < r.1@.len() ==> #[trigger] r.1@[a] is InProgress && 0
                    <= spec_status_percentage(r.1@[a]) <= 100)
            &&& (forall|a: int, b: int|
                0 <= a <= b < r.1@.len() ==> spec_status_percentage(r.1@[a])
                    <= spec_status_percentage(r.1@[b]))
        }),
{
    let mut run = CopyRun::new(total_bytes);
    let mut progress: Vec<TransferStatus> = Vec::new();
    let mut i: usize = 0;
    while i < files.len()
        invariant
            files@.len() == reads@.len(),
            i <= files@.len(),
            spec_copied_bytes(reads@, reads@.len() as int) <= u64::MAX,
            run.total_bytes == total_bytes,
            run.last_progress_update <= run.bytes_copied,
            run.bytes_copied == spec_copied_bytes(reads@, i as int),
            run.errors@ == spec_copy_errors(files@, reads@, i as int),
            forall|j: int| 0 <= j < i ==> !spec_read_removal(reads@[j]),
            (forall|j: int| 0 <= j < i ==> #[trigger] reads@[j] is Content) ==> run.hashes@.len()
                == i,
            (forall|j: int| 0 <= j < i ==> #[trigger] reads@[j] is Content) ==> (forall|j: int|
                0 <= j < i ==> #[trigger] run.hashes@[j].relative_path
                    == files@[j].relative_path && run.hashes@[j].hash@ == blake3_of(
                    reads@[j]->Content_0@,
                ) && run.hashes@[j].size == reads@[j]->Content_0@.len()),
            forall|a: int|
                0 <= a < progress@.len() ==> #[trigger] progress@[a] is InProgress && 0
                    <= spec_status_percentage(progress@[a]) <= 100 && spec_status_percentage(
                    progress@[a],
                ) <= spec_percentage(run.bytes_copied, total_bytes),
            forall|a: int, b: int|
                0 <= a <= b < progress@.len() ==> spec_status_percentage(progress@[a])
                    <= spec_status_percentage(progress@[b]),
        decreases files@.len() - i,
    {
        let ghost old_run = run;
        match &reads[i] {
            SourceRead::Content(bytes) => {
                proof {
                    lemma_copied_bytes_mono(reads@, i + 1, reads@.len() as int);
                    lemma_copied_bytes_nonneg(reads@, i as int);
                }
                let mut fc = FileCopy::new();
                fc.push_chunk(bytes.as_slice());
                proof {
                    assert(fc.content() =~= bytes@);
                }
                let fh = fc.finish(files[i].relative_path.clone());
                let p = run.file_copied(fh, files[i].relative_path.as_str());
                proof {
                    lemma_percentage_monotonic(old_run.bytes_copied, run.bytes_copied, total_bytes);
                    lemma_percentage_bounds(run.bytes_copied, total_bytes);
                }
                match p {
                    Some(s) => {
                        progress.push(s);
                    },
                    None => {},
                }
            },
            SourceRead::Failure(e) => {
                let abort = run.file_failed(files[i].relative_path.clone(), e);
                match abort {
                    Some(msg) => {
                        proof {
                            lemma_first_removal_skip(reads@, i as int);
                            lemma_percentage_monotonic(
                                old_run.bytes_copied,
                                run.bytes_copied,
                                total_bytes,
                            );
                        }
                        return (Err(msg), progress);
                    },
                    None => {
                        proof {
                            assert(run.errors@ =~= spec_copy_errors(files@, reads@, i + 1));
                        }
                    },
                }
            },
        }
        i += 1;
    }
    proof {
        lemma_first_removal_skip(reads@, reads@.len() as int);
        lemma_no_errors_all_content(files@, reads@, reads@.len() as int);
        lemma_copy_errors_len(files@, reads@, reads@.len() as int);
        assert(files@.len() == i);
    }
    let outcome = run.finish();
    proof {
        let n = files@.len() as int;
        let k = spec_first_removal(reads@, 0);
        let errs = spec_copy_errors(files@, reads@, n);
        assert(k == n);
        assert(outcome is Ok <==> errs.len() == 0);
        if outcome is Ok {
            assert(forall|j: int| 0 <= j < n ==> #[trigger] reads@[j] is Content);
        }
    }
    (outcome, progress)
}

} // verus!
