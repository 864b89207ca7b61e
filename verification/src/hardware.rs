//! Block devices, the filesystems the daemon backs up, and the policy that
//! decides which hot-plug events become work.
//!
//! The kernel subscription and device enumeration report raw properties;
//! `accept_device` applies the daemon's filter: an entry is accepted only
//! when it exposes a recognised filesystem kind, a volume id and a device
//! node.  The label falls back to the volume id.  Mount option strings per
//! filesystem kind are fixed here too; the mount system calls themselves
//! happen outside the library.

use vstd::prelude::*;
use vstd::slice::slice_to_vec;
use crate::text::{bytes_eq, parse_u64_digits, scan_digits, scan_field, scan_spaces,
    spec_digit_end, spec_field_end, spec_join, spec_num_value, spec_space_end};

verus! {

/// An attach or detach reported by the hardware adapter.
#[derive(Debug, Clone)]
pub enum HardwareEvent {
    DeviceAdded(BlockDevice),
    DeviceRemoved(String),
}

/// An attached filesystem, as the orchestrator sees it.
#[derive(Debug, Clone)]
pub struct BlockDevice {
    /// Stable volume identifier.
    pub uuid: String,
    /// Human label; defaults to the volume id when the volume has none.
    pub label: String,
    /// Device node path.
    pub path: String,
    /// Where the filesystem is mounted; filled only after a successful mount.
    pub mount_point: String,
    /// Capacity in bytes.
    pub capacity: u64,
    /// Filesystem kind name, one of the recognised kinds.
    pub filesystem: String,
}

/// The closed set of filesystem kinds the daemon backs up.
#[derive(Debug, Clone, Copy, PartialEq, Eq, Structural)]
pub enum SupportedFilesystem {
    Ext4,
    Exfat,
    Vfat,
    Ntfs,
    Btrfs,
}

/// ASCII lowercase of one character.
pub open spec fn spec_lower_char(c: char) -> char {
    if 65 <= c as u32 && c as u32 <= 90 {
        ((c as u8) + 32) as char
    } else {
        c
    }
}

/// ASCII lowercase of a character sequence.
pub open spec fn spec_lower(s: Seq<char>) -> Seq<char> {
    s.map_values(|c: char| spec_lower_char(c))
}

/// Which filesystem kind a reported type name denotes, ignoring ASCII case.
/// The FAT variants share one kind; anything else is unrecognised.
pub open spec fn spec_fs_from(s: Seq<char>) -> Option<SupportedFilesystem> {
    let l = spec_lower(s);
    if l == "ext4"@ {
        Some(SupportedFilesystem::Ext4)
    } else if l == "exfat"@ {
        Some(SupportedFilesystem::Exfat)
    } else if l == "vfat"@ || l == "fat32"@ || l == "fat16"@ {
        Some(SupportedFilesystem::Vfat)
    } else if l == "ntfs"@ {
        Some(SupportedFilesystem::Ntfs)
    } else if l == "btrfs"@ {
        Some(SupportedFilesystem::Btrfs)
    } else {
        None
    }
}

/// ASCII lowercase of one character.
fn lower_char(c: char) -> (r: char)
    ensures
        r == spec_lower_char(c),
{
    let cu = c as u32;
    if 65 <= cu && cu <= 90 {
        ((c as u8) + 32) as char
    } else {
        c
    }
}

/// Whether `s`, folded to ASCII lowercase, equals `t`.
fn eq_lower(s: &str, t: &str) -> (r: bool)
    ensures
        r == (spec_lower(s@) == t@),
{
    let slen = s.unicode_len();
    let tlen = t.unicode_len();
    if slen != tlen {
        proof {
            assert(spec_lower(s@).len() == s@.len());
        }
        return false;
    }
    let mut i: usize = 0;
    while i < slen
        invariant
            i <= slen,
            slen == s@.len(),
            slen == t@.len(),
            forall|j: int| 0 <= j < i ==> spec_lower(s@)[j] == t@[j],
        decreases slen - i,
    {
        let c = lower_char(s.get_char(i));
        if c != t.get_char(i) {
            proof {
                assert(spec_lower(s@)[i as int] != t@[i as int]);
            }
            return false;
        }
        i += 1;
    }
    proof {
        assert(spec_lower(s@) =~= t@);
    }
    true
}

impl SupportedFilesystem {
    /// Recognises a reported filesystem type name, ignoring ASCII case.
    pub fn from_str(s: &str) -> (r: Option<SupportedFilesystem>)
        ensures
            r == spec_fs_from(s@),
    {
        if eq_lower(s, "ext4") {
            Some(SupportedFilesystem::Ext4)
        } else if eq_lower(s, "exfat") {
            Some(SupportedFilesystem::Exfat)
        } else if eq_lower(s, "vfat") || eq_lower(s, "fat32") || eq_lower(s, "fat16") {
            Some(SupportedFilesystem::Vfat)
        } else if eq_lower(s, "ntfs") {
            Some(SupportedFilesystem::Ntfs)
        } else if eq_lower(s, "btrfs") {
            Some(SupportedFilesystem::Btrfs)
        } else {
            None
        }
    }

    /// The kind's canonical name.
    pub fn as_str(&self) -> (r: &'static str)
        ensures
            self == SupportedFilesystem::Ext4 ==> r@ == "ext4"@,
            self == SupportedFilesystem::Exfat ==> r@ == "exfat"@,
            self == SupportedFilesystem::Vfat ==> r@ == "vfat"@,
            self == SupportedFilesystem::Ntfs ==> r@ == "ntfs"@,
            self == SupportedFilesystem::Btrfs ==> r@ == "btrfs"@,
    {
        match self {
            SupportedFilesystem::Ext4 => "ext4",
            SupportedFilesystem::Exfat => "exfat",
            SupportedFilesystem::Vfat => "vfat",
            SupportedFilesystem::Ntfs => "ntfs",
            SupportedFilesystem::Btrfs => "btrfs",
        }
    }

    /// The mount option string for this kind: the FAT family gets UTF-8 and
    /// fixed uid/gid/umask, NTFS gets uid/gid/umask, the native kinds get
    /// defaults.  Mounts additionally always forbid exec and set-uid.
    pub fn mount_options(&self) -> (r: Option<&'static str>)
        ensures
            (self == SupportedFilesystem::Vfat || self == SupportedFilesystem::Exfat) ==> (
            r matches Some(o) && o@ == "utf8,uid=0,gid=0,umask=022"@),
            self == SupportedFilesystem::Ntfs ==> (r matches Some(o) && o@
                == "uid=0,gid=0,umask=022"@),
            (self == SupportedFilesystem::Ext4 || self == SupportedFilesystem::Btrfs) ==> r
                is None,
    {
        match self {
            SupportedFilesystem::Vfat => Some("utf8,uid=0,gid=0,umask=022"),
            SupportedFilesystem::Exfat => Some("utf8,uid=0,gid=0,umask=022"),
            SupportedFilesystem::Ntfs => Some("uid=0,gid=0,umask=022"),
            SupportedFilesystem::Ext4 => None,
            SupportedFilesystem::Btrfs => None,
        }
    }
}

/// Configuration of the hardware adapter.
#[derive(Debug, Clone)]
pub struct LinuxAdapterConfig {
    /// Base path under which the daemon creates its own mount points.
    pub mount_base: String,
    /// Whether to mount accepted devices automatically.
    pub auto_mount: bool,
}

/// The raw properties of one block-subsystem entry, as the kernel reports
/// them.
#[derive(Debug, Clone)]
pub struct DeviceProbe {
    /// The kernel's `DEVTYPE`, `partition` for partitions.
    pub devtype: Option<String>,
    pub fs_type: Option<String>,
    pub uuid: Option<String>,
    pub label: Option<String>,
    pub devnode: Option<String>,
}

/// An entry that passed the acceptance filter.
#[derive(Debug, Clone)]
pub struct AcceptedDevice {
    pub uuid: String,
    pub label: String,
    pub devnode: String,
    pub filesystem: SupportedFilesystem,
}

/// Applies the acceptance filter to one probe.  An entry is considered only
/// when it is a partition or exposes some filesystem type; past that it must
/// expose a recognised filesystem kind, a volume id and a device node, so
/// the first test never decides by itself and the contract does not mention
/// it.  Anything else is dropped silently; the label defaults to the volume
/// id.
pub fn accept_device(probe: &DeviceProbe) -> (r: Option<AcceptedDevice>)
    ensures
        r is Some <==> ((probe.fs_type matches Some(f) && spec_fs_from(f@) is Some)
            && probe.uuid is Some && probe.devnode is Some),
        r matches Some(a) ==> (probe.fs_type matches Some(f) && Some(a.filesystem)
            == spec_fs_from(f@)),
        r matches Some(a) ==> (probe.uuid matches Some(u) && a.uuid == u),
        r matches Some(a) ==> (probe.devnode matches Some(d) && a.devnode == d),
        r matches Some(a) ==> a.label == (match probe.label {
            Some(l) => l,
            None => probe.uuid->0,
        }),
{
    let is_partition = match &probe.devtype {
        Some(t) => crate::text::str_eq(t.as_str(), "partition"),
        None => false,
    };
    if !is_partition && probe.fs_type.is_none() {
        return None;
    }
    let fs = match &probe.fs_type {
        Some(f) => match SupportedFilesystem::from_str(f.as_str()) {
            Some(fs) => fs,
            None => {
                return None;
            },
        },
        None => {
            return None;
        },
    };
    let uuid = match &probe.uuid {
        Some(u) => u.clone(),
        None => {
            return None;
        },
    };
    let devnode = match &probe.devnode {
        Some(d) => d.clone(),
        None => {
            return None;
        },
    };
    let label = match &probe.label {
        Some(l) => l.clone(),
        None => uuid.clone(),
    };
    Some(AcceptedDevice { uuid, label, devnode, filesystem: fs })
}

/// The daemon's mount point for a volume: `<mount_base>/<uuid>`.
pub fn mount_point_path(mount_base: &str, uuid: &str) -> (r: String)
    ensures
        r@ == spec_join(mount_base@, uuid@),
{
    crate::text::join_path(mount_base, uuid)
}

/// What one line of the system mount table says about a device: the second
/// field when the first field is the device's node path, else nothing.
pub open spec fn spec_mounts_line_match(line: Seq<u8>, device: Seq<u8>) -> Option<Seq<u8>> {
    let i = spec_space_end(line, 0);
    let j = spec_field_end(line, i);
    let k = spec_space_end(line, j);
    let l = spec_field_end(line, k);
    if j > i && l > k && line.subrange(i, j) == device {
        Some(line.subrange(k, l))
    } else {
        None
    }
}

/// Reads one line of the system mount table: when its device field is
/// `device`, the mount point field is where that device is mounted.  Used to
/// reuse a mount that already exists instead of mounting again.
pub fn parse_mounts_line(line: &[u8], device: &[u8]) -> (r: Option<Vec<u8>>)
    ensures
        r is Some <==> spec_mounts_line_match(line@, device@) is Some,
        r matches Some(v) ==> Some(v@) == spec_mounts_line_match(line@, device@),
{
    let i = scan_spaces(line, 0);
    let j = scan_field(line, i);
    if j == i {
        return None;
    }
    let k = scan_spaces(line, j);
    let l = scan_field(line, k);
    if l == k {
        return None;
    }
    if bytes_eq(&line[i..j], device) {
        Some(slice_to_vec(&line[k..l]))
    } else {
        None
    }
}

/// End of the leading run of non-digit characters of a device name.
pub open spec fn spec_nondigit_end(s: Seq<char>, i: int) -> int
    decreases s.len() - i,
{
    if 0 <= i < s.len() && !(48 <= s[i] as u32 && s[i] as u32 <= 57) {
        spec_nondigit_end(s, i + 1)
    } else {
        i
    }
}

/// The whole-disk name a partition name starts with: the characters before
/// the first decimal digit (`sdb` for `sdb1`).  The kernel publishes a
/// device's size under that name.
pub fn base_device_name(name: &str) -> (r: String)
    ensures
        r@ == name@.subrange(0, spec_nondigit_end(name@, 0)),
{
    let len = name.unicode_len();
    let mut cur: usize = 0;
    while cur < len && !is_digit_char(name.get_char(cur))
        invariant
            cur <= len,
            len == name@.len(),
            spec_nondigit_end(name@, 0) == spec_nondigit_end(name@, cur as int),
        decreases len - cur,
    {
        cur += 1;
    }
    name.substring_char(0, cur).to_owned()
}

/// Whether a character is a decimal digit.
fn is_digit_char(c: char) -> (r: bool)
    ensures
        r == (48 <= c as u32 && c as u32 <= 57),
{
    let cu = c as u32;
    48 <= cu && cu <= 57
}

/// The capacity a kernel size file reports: the sector count it holds, times
/// the 512-byte sector size.  Nothing is reported for a malformed file or a
/// count too large to state in bytes.
pub open spec fn spec_capacity_of(text: Seq<u8>) -> Option<u64> {
    let i = spec_space_end(text, 0);
    let j = spec_digit_end(text, i);
    let k = spec_space_end(text, j);
    if j > i && k == text.len() && spec_num_value(text.subrange(i, j)) * 512 <= u64::MAX {
        Some((spec_num_value(text.subrange(i, j)) * 512) as u64)
    } else {
        None
    }
}

/// Reads a kernel size file: the device's capacity in bytes.
pub fn capacity_from_sector_count(text: &[u8]) -> (r: Option<u64>)
    ensures
        r == spec_capacity_of(text@),
{
    let i = scan_spaces(text, 0);
    let j = scan_digits(text, i);
    if j == i {
        return None;
    }
    let k = scan_spaces(text, j);
    if k != text.len() {
        return None;
    }
    match parse_u64_digits(text, i, j) {
        Some(sectors) => {
            if sectors <= u64::MAX / 512 {
                Some(sectors * 512)
            } else {
                None
            }
        },
        None => None,
    }
}

/// What to do about mounting an accepted device.
#[derive(Debug)]
pub enum MountPlan {
    /// The volume is already mounted there: reuse it, and do not record it
    /// as daemon-mounted.
    UseExisting(String),
    /// Mount it under the daemon's mount base and record it.
    MountAndRecord,
    /// Auto-mount is off and nothing is mounted: drop the event.
    Drop,
}

/// The mounting policy for one accepted attach: a mount found in the system
/// mount table is reused (and stays foreign), otherwise the daemon mounts
/// the volume itself only when auto-mount is on.
pub fn mount_plan(existing_mount: Option<String>, auto_mount: bool) -> (r: MountPlan)
    ensures
        (existing_mount matches Some(mp) ==> (r matches MountPlan::UseExisting(p) && p == mp)),
        existing_mount is None && auto_mount ==> r is MountAndRecord,
        existing_mount is None && !auto_mount ==> r is Drop,
{
    match existing_mount {
        Some(mount_point) => MountPlan::UseExisting(mount_point),
        None => {
            if auto_mount {
                MountPlan::MountAndRecord
            } else {
                MountPlan::Drop
            }
        },
    }
}

/// A command of the simulation console.
#[derive(Debug)]
pub enum SimCommand {
    /// Inject an attach of the volume with this id.
    AddDevice(Vec<u8>),
    /// Inject a detach of the volume with this id.
    RemoveDevice(Vec<u8>),
    /// Anything else.
    Invalid,
}

/// The volume id a simulation command names: its second field, or the fixed
/// id `123` when it has none.
pub open spec fn spec_sim_uuid(line: Seq<u8>, k: int, l: int) -> Seq<u8> {
    if l > k {
        line.subrange(k, l)
    } else {
        "123"@.map_values(|c: char| c as u8)
    }
}

/// Parses one line of the simulation console: `add [uuid]` injects an
/// attach, `rm [uuid]` a detach, with the volume id defaulting to `123`;
/// anything else, including extra fields, is invalid.
pub fn parse_sim_command(line: &[u8]) -> (r: SimCommand)
    ensures
        ({
            let i = spec_space_end(line@, 0);
            let j = spec_field_end(line@, i);
            let k = spec_space_end(line@, j);
            let l = spec_field_end(line@, k);
            let m = spec_space_end(line@, l);
            let word = line@.subrange(i, j);
            &&& (m == line@.len() && word == "add"@.map_values(|c: char| c as u8) ==> (
            r matches SimCommand::AddDevice(u) && u@ == spec_sim_uuid(line@, k, l)))
            &&& (m == line@.len() && word == "rm"@.map_values(|c: char| c as u8) ==> (
            r matches SimCommand::RemoveDevice(u) && u@ == spec_sim_uuid(line@, k, l)))
            &&& (!(m == line@.len() && (word == "add"@.map_values(|c: char| c as u8) || word
                == "rm"@.map_values(|c: char| c as u8))) ==> r is Invalid)
        }),
{
    let i = scan_spaces(line, 0);
    let j = scan_field(line, i);
    let k = scan_spaces(line, j);
    let l = scan_field(line, k);
    let m = scan_spaces(line, l);
    if m != line.len() {
        return SimCommand::Invalid;
    }
    let word = &line[i..j];
    let is_add = word.len() == 3 && word[0] == 97 && word[1] == 100 && word[2] == 100;
    let is_rm = word.len() == 2 && word[0] == 114 && word[1] == 109;
    proof {
        reveal_strlit("add");
        reveal_strlit("rm");
        reveal_strlit("123");
        assert("add"@.map_values(|c: char| c as u8) =~= seq![97u8, 100u8, 100u8]);
        assert("rm"@.map_values(|c: char| c as u8) =~= seq![114u8, 109u8]);
        assert("123"@.map_values(|c: char| c as u8) =~= seq![49u8, 50u8, 51u8]);
        if is_add {
            assert(word@ =~= seq![97u8, 100u8, 100u8]);
        }
        if is_rm {
            assert(word@ =~= seq![114u8, 109u8]);
        }
    }
    if !is_add && !is_rm {
        return SimCommand::Invalid;
    }
    let uuid: Vec<u8> = if l > k {
        slice_to_vec(&line[k..l])
    } else {
        let mut v: Vec<u8> = Vec::new();
        v.push(49);
        v.push(50);
        v.push(51);
        proof {
            assert(v@ =~= "123"@.map_values(|c: char| c as u8));
        }
        v
    };
    if is_add {
        SimCommand::AddDevice(uuid)
    } else {
        SimCommand::RemoveDevice(uuid)
    }
}

/// The synthetic device one injected attach stands for: a fixed test label,
/// node and mount point derived from the volume id, and the given size.
pub fn simulated_device(uuid: &str, size_gb: u64) -> (r: BlockDevice)
    requires
        size_gb * 1073741824 <= u64::MAX,
    ensures
        r.uuid@ == uuid@,
        r.label@ == "TEST_DEVICE_"@ + uuid@,
        r.path@ == "/tmp/test_"@ + uuid@,
        r.mount_point@ == "/tmp/mnt_"@ + uuid@,
        r.capacity == size_gb * 1073741824,
        r.filesystem@ == "ext4"@,
{
    let mut label = String::new();
    label.append("TEST_DEVICE_");
    label.append(uuid);
    let mut path = String::new();
    path.append("/tmp/test_");
    path.append(uuid);
    let mut mount_point = String::new();
    mount_point.append("/tmp/mnt_");
    mount_point.append(uuid);
    BlockDevice {
        uuid: uuid.to_owned(),
        label,
        path,
        mount_point,
        capacity: size_gb * 1073741824,
        filesystem: "ext4".to_owned(),
    }
}

} // verus!
