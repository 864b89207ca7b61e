//! The external-process copy engine's text handling.
//!
//! The engine delegates the copy to an external recursive-copy utility and
//! watches its machine-readable progress output byte by byte: carriage
//! returns and newlines both end a line, and a progress line starts with
//! optional blanks, a comma-grouped byte count, blanks, and a percentage
//! such as `  12,345,678   45%  10.2MB/s`.  Each such line becomes an
//! `in_progress` tag.  Spawning and reaping the child process happen outside
//! the library.

use vstd::prelude::*;
use crate::ownership::FileOwner;
use crate::status::TransferStatus;
use crate::text::{read_number, scan_digits, scan_numcommas, scan_spaces, spec_digit_end,
    spec_num_value, spec_numcomma_end, spec_space_end, spec_join};

verus! {

/// What a progress line reports: the cumulative byte count and the
/// percentage, when the line has the progress shape.  A count that does not
/// fit its integer reads as zero, as a failed parse does.
pub open spec fn spec_rsync_progress(line: Seq<u8>) -> Option<(u64, u8)> {
    let i = spec_space_end(line, 0);
    let j = spec_numcomma_end(line, i);
    let k = spec_space_end(line, j);
    let l = spec_digit_end(line, k);
    if j > i && k > j && l > k && l < line.len() && line[l] == 37 {
        let bytes_val = spec_num_value(line.subrange(i, j));
        let pct_val = spec_num_value(line.subrange(k, l));
        Some(
            (
                if bytes_val <= u64::MAX {
                    bytes_val as u64
                } else {
                    0u64
                },
                if pct_val <= 255 {
                    pct_val as u8
                } else {
                    0u8
                },
            ),
        )
    } else {
        None
    }
}

/// Parses one line of the external tool's output.
///
/// A line of the progress shape yields its cumulative byte count and
/// percentage; any other line yields nothing.
pub fn parse_rsync_progress(line: &[u8]) -> (r: Option<(u64, u8)>)
    ensures
        r == spec_rsync_progress(line@),
{
    let i = scan_spaces(line, 0);
    let j = scan_numcommas(line, i);
    if j == i {
        return None;
    }
    let k = scan_spaces(line, j);
    if k == j {
        return None;
    }
    let l = scan_digits(line, k);
    if l == k {
        return None;
    }
    if l >= line.len() || line[l] != 37 {
        return None;
    }
    let bytes_copied = read_number(line, i, j, u64::MAX);
    let pct_wide = read_number(line, k, l, 255);
    Some((bytes_copied, pct_wide as u8))
}

/// Splits the child's raw output into lines at carriage returns and
/// newlines, dropping empty lines.
pub struct LineSplitter {
    buffer: Vec<u8>,
}

impl LineSplitter {
    /// The bytes of the line being accumulated.
    pub closed spec fn pending(self) -> Seq<u8> {
        self.buffer@
    }

    /// An empty splitter.
    pub fn new() -> (r: LineSplitter)
        ensures
            r.pending() == Seq::<u8>::empty(),
    {
        LineSplitter { buffer: Vec::new() }
    }

    /// Feeds one byte: a line break hands back the pending line (empty lines
    /// are swallowed), any other byte extends it.
    pub fn push_byte(&mut self, b: u8) -> (line: Option<Vec<u8>>)
        ensures
            (b == 13 || b == 10) ==> final(self).pending() == Seq::<u8>::empty(),
            (b == 13 || b == 10) && old(self).pending().len() == 0 ==> line is None,
            (b == 13 || b == 10) && old(self).pending().len() > 0 ==> (line matches Some(l)
                && l@ == old(self).pending()),
            !(b == 13 || b == 10) ==> line is None && final(self).pending() == old(
                self,
            ).pending().push(b),
    {
        if b == 13 || b == 10 {
            if self.buffer.len() == 0 {
                None
            } else {
                let mut taken: Vec<u8> = Vec::new();
                core::mem::swap(&mut taken, &mut self.buffer);
                Some(taken)
            }
        } else {
            self.buffer.push(b);
            None
        }
    }
}

/// The `in_progress` tag one parsed progress line becomes.  The external
/// tool does not report a total, so the total reads zero and no ETA is
/// given.
pub fn rsync_progress_status(bytes_copied: u64, percentage: u8) -> (r: TransferStatus)
    ensures
        (r matches TransferStatus::InProgress {
            total_bytes: t,
            bytes_copied: b,
            current_file: f,
            percentage: p,
            eta_seconds: e,
        } && t == 0 && b == bytes_copied && f@ == Seq::<char>::empty() && p == percentage && e
            is None),
{
    TransferStatus::InProgress {
        total_bytes: 0,
        bytes_copied,
        current_file: String::new(),
        percentage,
        eta_seconds: None,
    }
}

/// The argument list the external copy utility is run with: archive mode,
/// normalised permissions, machine-readable total progress, non-incremental
/// recursion, the owner to set when one was resolved, then the source (with
/// a trailing slash, to copy its contents) and the destination.
pub fn rsync_args(source: &str, destination: &str, owner: &Option<FileOwner>) -> (args: Vec<
    String,
>)
    ensures
        args@.len() == (if owner is Some { 7int } else { 6int }),
        args@[0]@ == "-av"@,
        args@[1]@ == "--chmod=u+rw,g+r,o+r"@,
        args@[2]@ == "--info=progress2"@,
        args@[3]@ == "--no-inc-recursive"@,
        owner matches Some(o) ==> args@[4]@ == "--chown="@ + o.user@ + ":"@ + o.group@,
        args@[args@.len() - 2]@ == source@ + "/"@,
        args@[args@.len() - 1]@ == destination@,
{
    let mut args: Vec<String> = Vec::new();
    args.push("-av".to_owned());
    args.push("--chmod=u+rw,g+r,o+r".to_owned());
    args.push("--info=progress2".to_owned());
    args.push("--no-inc-recursive".to_owned());
    match owner {
        Some(o) => {
            let mut chown = String::new();
            chown.append("--chown=");
            let arg = o.as_chown_arg();
            chown.append(arg.as_str());
            args.push(chown);
        },
        None => {},
    }
    let mut src = source.to_owned();
    src.append("/");
    args.push(src);
    args.push(destination.to_owned());
    args
}

} // verus!
