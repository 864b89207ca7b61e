//! Device acceptance, mount bookkeeping, text helpers and the external
//! tool's progress grammar.

use bksd::hardware::{accept_device, base_device_name, capacity_from_sector_count,
    mount_plan, mount_point_path, parse_mounts_line, parse_sim_command, simulated_device,
    DeviceProbe, MountPlan, SimCommand, SupportedFilesystem};
use bksd::mounts::MountTable;
use bksd::rsync::{parse_rsync_progress, rsync_args, LineSplitter};
use bksd::ownership::FileOwner;
use bksd::text::{join_path, str_eq, u64_to_string};
use bksd::transfer::SimulatedEngine;
use bksd::tui::{format_duration, key_action, navigate_down, navigate_up, progress_bar, Action,
    Key, Screen};

#[test]
fn filesystem_names_round_trip() {
    assert_eq!(SupportedFilesystem::from_str("ext4"), Some(SupportedFilesystem::Ext4));
    assert_eq!(SupportedFilesystem::from_str("EXT4"), Some(SupportedFilesystem::Ext4));
    assert_eq!(SupportedFilesystem::from_str("exfat"), Some(SupportedFilesystem::Exfat));
    assert_eq!(SupportedFilesystem::from_str("vfat"), Some(SupportedFilesystem::Vfat));
    assert_eq!(SupportedFilesystem::from_str("fat32"), Some(SupportedFilesystem::Vfat));
    assert_eq!(SupportedFilesystem::from_str("fat16"), Some(SupportedFilesystem::Vfat));
    assert_eq!(SupportedFilesystem::from_str("NTFS"), Some(SupportedFilesystem::Ntfs));
    assert_eq!(SupportedFilesystem::from_str("btrfs"), Some(SupportedFilesystem::Btrfs));
    assert_eq!(SupportedFilesystem::from_str("xfs"), None);
    assert_eq!(SupportedFilesystem::from_str(""), None);
    assert_eq!(SupportedFilesystem::Ext4.as_str(), "ext4");
    assert_eq!(SupportedFilesystem::Vfat.as_str(), "vfat");
}

#[test]
fn mount_options_per_filesystem() {
    assert_eq!(
        SupportedFilesystem::Vfat.mount_options(),
        Some("utf8,uid=0,gid=0,umask=022")
    );
    assert_eq!(
        SupportedFilesystem::Exfat.mount_options(),
        Some("utf8,uid=0,gid=0,umask=022")
    );
    assert_eq!(
        SupportedFilesystem::Ntfs.mount_options(),
        Some("uid=0,gid=0,umask=022")
    );
    assert_eq!(SupportedFilesystem::Ext4.mount_options(), None);
    assert_eq!(SupportedFilesystem::Btrfs.mount_options(), None);
}

#[test]
fn acceptance_filter() {
    let full = DeviceProbe {
        devtype: Some("partition".to_string()),
        fs_type: Some("vfat".to_string()),
        uuid: Some("1234-ABCD".to_string()),
        label: Some("CAMERA".to_string()),
        devnode: Some("/dev/sdb1".to_string()),
    };
    let accepted = accept_device(&full).expect("a labelled vfat partition is accepted");
    assert_eq!(accepted.uuid, "1234-ABCD");
    assert_eq!(accepted.label, "CAMERA");
    assert_eq!(accepted.devnode, "/dev/sdb1");
    assert_eq!(accepted.filesystem, SupportedFilesystem::Vfat);

    // A missing label falls back to the volume id.
    let unlabelled = DeviceProbe {
        label: None,
        ..full.clone()
    };
    assert_eq!(accept_device(&unlabelled).unwrap().label, "1234-ABCD");

    // Unsupported filesystems are dropped silently.
    let swap = DeviceProbe {
        fs_type: Some("swap".to_string()),
        ..full.clone()
    };
    assert!(accept_device(&swap).is_none());

    // The volume id is required.
    let no_uuid = DeviceProbe {
        uuid: None,
        ..full.clone()
    };
    assert!(accept_device(&no_uuid).is_none());

    let no_fs = DeviceProbe {
        fs_type: None,
        ..full.clone()
    };
    assert!(accept_device(&no_fs).is_none());

    let no_node = DeviceProbe {
        devnode: None,
        ..full
    };
    assert!(accept_device(&no_node).is_none());
}

#[test]
fn mount_table_unmounts_only_what_it_mounted() {
    let mut table = MountTable::new();
    table.record_mount("1234-ABCD", "/run/backup/1234-ABCD");
    table.record_mount("5678-EFEF", "/run/backup/5678-EFEF");
    assert!(table.contains("1234-ABCD"));
    assert!(!table.contains("FFFF-0000"));

    // A volume the daemon mounted is unmounted — at exactly the mount point
    // recorded for it — and forgotten; the other volume keeps its own.
    let unmount = table.cleanup("1234-ABCD");
    assert_eq!(unmount.as_deref(), Some("/run/backup/1234-ABCD"));
    assert!(!table.contains("1234-ABCD"));
    assert!(table.contains("5678-EFEF"));
    let unmount = table.cleanup("5678-EFEF");
    assert_eq!(unmount.as_deref(), Some("/run/backup/5678-EFEF"));

    // A volume it never mounted is left alone; cleanup is a no-op.
    let unmount = table.cleanup("1234-ABCD");
    assert!(unmount.is_none());
    let unmount = table.cleanup("FFFF-0000");
    assert!(unmount.is_none());
}

#[test]
fn mount_point_layout() {
    assert_eq!(mount_point_path("/run/backup", "1234-ABCD"), "/run/backup/1234-ABCD");
    assert_eq!(join_path("/backups", "CAMERA"), "/backups/CAMERA");
}

#[test]
fn mounts_lines_name_the_mount_point() {
    let line = b"/dev/sdb1 /run/backup/1234-ABCD vfat rw,noexec 0 0";
    assert_eq!(
        parse_mounts_line(line, b"/dev/sdb1").as_deref(),
        Some(b"/run/backup/1234-ABCD".as_slice())
    );
    assert!(parse_mounts_line(line, b"/dev/sdc1").is_none());
    assert!(parse_mounts_line(b"", b"/dev/sdb1").is_none());
    assert!(parse_mounts_line(b"/dev/sdb1", b"/dev/sdb1").is_none());
}

#[test]
fn partition_names_and_capacity() {
    assert_eq!(base_device_name("sdb1"), "sdb");
    assert_eq!(base_device_name("sdb"), "sdb");
    assert_eq!(base_device_name("nvme0n1p2"), "nvme");
    assert_eq!(capacity_from_sector_count(b"3907029168\n"), Some(3907029168 * 512));
    assert_eq!(capacity_from_sector_count(b"8\n"), Some(4096));
    assert_eq!(capacity_from_sector_count(b"eight\n"), None);
    assert_eq!(capacity_from_sector_count(b""), None);
    assert_eq!(capacity_from_sector_count(b"12 34"), None);
}

#[test]
fn mounting_policy() {
    match mount_plan(Some("/media/existing".to_string()), true) {
        MountPlan::UseExisting(mp) => assert_eq!(mp, "/media/existing"),
        _ => panic!("an existing mount is reused"),
    }
    assert!(matches!(mount_plan(None, true), MountPlan::MountAndRecord));
    assert!(matches!(mount_plan(None, false), MountPlan::Drop));
}

#[test]
fn simulation_commands() {
    match parse_sim_command(b"add 1234-ABCD") {
        SimCommand::AddDevice(uuid) => assert_eq!(uuid, b"1234-ABCD"),
        _ => panic!("expected AddDevice"),
    }
    match parse_sim_command(b"add") {
        SimCommand::AddDevice(uuid) => assert_eq!(uuid, b"123"),
        _ => panic!("expected AddDevice with the default id"),
    }
    match parse_sim_command(b"rm 1234-ABCD") {
        SimCommand::RemoveDevice(uuid) => assert_eq!(uuid, b"1234-ABCD"),
        _ => panic!("expected RemoveDevice"),
    }
    match parse_sim_command(b"rm") {
        SimCommand::RemoveDevice(uuid) => assert_eq!(uuid, b"123"),
        _ => panic!("expected RemoveDevice with the default id"),
    }
    assert!(matches!(parse_sim_command(b"eject 123"), SimCommand::Invalid));
    assert!(matches!(parse_sim_command(b"add a b"), SimCommand::Invalid));
    assert!(matches!(parse_sim_command(b""), SimCommand::Invalid));
}

#[test]
fn synthetic_devices_have_the_test_shape() {
    let dev = simulated_device("test-uuid-1", 64);
    assert_eq!(dev.uuid, "test-uuid-1");
    assert_eq!(dev.label, "TEST_DEVICE_test-uuid-1");
    assert_eq!(dev.path, "/tmp/test_test-uuid-1");
    assert_eq!(dev.mount_point, "/tmp/mnt_test-uuid-1");
    assert_eq!(dev.capacity, 64 * 1024 * 1024 * 1024);
    assert_eq!(dev.filesystem, "ext4");
}

#[test]
fn rsync_progress_lines() {
    // The tool's progress shape: blanks, grouped bytes, blanks, percentage.
    assert_eq!(
        parse_rsync_progress(b"  12,345,678   45%  10.2MB/s"),
        Some((12_345_678, 45))
    );
    assert_eq!(parse_rsync_progress(b"734 100%"), Some((734, 100)));
    assert_eq!(parse_rsync_progress(b"0 0%"), Some((0, 0)));
    // Anything else is not progress.
    assert_eq!(parse_rsync_progress(b"sending incremental file list"), None);
    assert_eq!(parse_rsync_progress(b"a.txt"), None);
    assert_eq!(parse_rsync_progress(b""), None);
    assert_eq!(parse_rsync_progress(b"  12,345"), None);
    assert_eq!(parse_rsync_progress(b"12,345 45"), None);
    // An out-of-range percentage reads as zero, as a failed parse does.
    assert_eq!(parse_rsync_progress(b"10 300%"), Some((10, 0)));
}

#[test]
fn line_splitter_handles_cr_and_lf() {
    let mut splitter = LineSplitter::new();
    let mut lines: Vec<Vec<u8>> = Vec::new();
    for b in b"  1,024 10%\r  2,048 20%\n\r\ndone\n".iter() {
        if let Some(line) = splitter.push_byte(*b) {
            lines.push(line);
        }
    }
    assert_eq!(lines.len(), 3);
    assert_eq!(lines[0], b"  1,024 10%");
    assert_eq!(lines[1], b"  2,048 20%");
    assert_eq!(lines[2], b"done");
}

#[test]
fn rsync_argument_list() {
    let owner = FileOwner {
        user: "joshua".to_string(),
        group: "users".to_string(),
    };
    let args = rsync_args("/mnt/sd", "/backups/SD/2026-01-01_T0101_01", &Some(owner));
    assert_eq!(
        args,
        vec![
            "-av".to_string(),
            "--chmod=u+rw,g+r,o+r".to_string(),
            "--info=progress2".to_string(),
            "--no-inc-recursive".to_string(),
            "--chown=joshua:users".to_string(),
            "/mnt/sd/".to_string(),
            "/backups/SD/2026-01-01_T0101_01".to_string(),
        ]
    );
    let args = rsync_args("/mnt/sd", "/backups/dest", &None);
    assert_eq!(args.len(), 6);
    assert_eq!(args[4], "/mnt/sd/");
    assert_eq!(args[5], "/backups/dest");
}

#[test]
fn simulated_engine_advances_and_clamps() {
    let engine = SimulatedEngine::default();
    assert_eq!(engine.speed_mb_per_sec, 100);
    let total = 500 * 1024 * 1024u64;
    let (copied, status) = engine.sim_tick(0, total, 0);
    assert_eq!(copied, 100 * 1024 * 1024 / 2);
    match status {
        bksd::status::TransferStatus::InProgress {
            bytes_copied,
            percentage,
            eta_seconds,
            ..
        } => {
            assert_eq!(bytes_copied, copied);
            assert_eq!(percentage, 10);
            assert!(eta_seconds.is_none());
        }
        _ => panic!("expected InProgress"),
    }
    // Near the end the counter clamps at the total and reports 100 %.
    let (copied, status) = engine.sim_tick(total - 1, total, 5000);
    assert_eq!(copied, total);
    match status {
        bksd::status::TransferStatus::InProgress { percentage, .. } => {
            assert_eq!(percentage, 100)
        }
        _ => panic!("expected InProgress"),
    }
    // Mid-transfer with history, the ETA is the remaining time rounded up.
    let (copied, status) = engine.sim_tick(total / 2 - 1, total, 2000);
    match status {
        bksd::status::TransferStatus::InProgress { eta_seconds, .. } => {
            let eta = eta_seconds.expect("an established rate yields an ETA");
            // copied ≈ 300 MiB in 2 s; ~200 MiB remain: about 2 s.
            assert!(eta >= 1 && eta <= 3, "eta {} copied {}", eta, copied);
        }
        _ => panic!("expected InProgress"),
    }
}

#[test]
fn decimal_rendering() {
    assert_eq!(u64_to_string(0), "0");
    assert_eq!(u64_to_string(7), "7");
    assert_eq!(u64_to_string(10), "10");
    assert_eq!(u64_to_string(11251), "11251");
    assert_eq!(u64_to_string(u64::MAX), "18446744073709551615");
}

#[test]
fn string_equality_by_contents() {
    assert!(str_eq("abc", "abc"));
    assert!(!str_eq("abc", "abd"));
    assert!(!str_eq("abc", "abcd"));
    assert!(str_eq("", ""));
    assert!(str_eq("naïve", "naïve"));
}

#[test]
fn progress_bar_shapes() {
    assert_eq!(progress_bar(0, 4), "[░░░░]");
    assert_eq!(progress_bar(50, 4), "[██░░]");
    assert_eq!(progress_bar(100, 4), "[████]");
    // Values above 100 clamp.
    assert_eq!(progress_bar(250, 4), "[████]");
    assert_eq!(progress_bar(45, 20), format!("[{}{}]", "█".repeat(9), "░".repeat(11)));
}

#[test]
fn duration_rendering() {
    assert_eq!(format_duration(5), "5s");
    assert_eq!(format_duration(65), "1m 5s");
    assert_eq!(format_duration(3600), "1h 0m");
    assert_eq!(format_duration(3725), "1h 2m");
    assert_eq!(format_duration(0), "0s");
}

#[test]
fn key_bindings() {
    assert_eq!(key_action(Key::Char('q'), false), Some(Action::Quit));
    assert_eq!(key_action(Key::Char('c'), true), Some(Action::Quit));
    assert_eq!(key_action(Key::Char('c'), false), None);
    assert_eq!(key_action(Key::Esc, false), Some(Action::Back));
    assert_eq!(key_action(Key::Up, false), Some(Action::Up));
    assert_eq!(key_action(Key::Char('k'), false), Some(Action::Up));
    assert_eq!(key_action(Key::Char('j'), false), Some(Action::Down));
    assert_eq!(key_action(Key::Char('h'), false), Some(Action::History));
    assert_eq!(key_action(Key::Char('r'), false), Some(Action::Refresh));
    assert_eq!(key_action(Key::Function(5), false), Some(Action::Refresh));
    assert_eq!(key_action(Key::Function(4), false), None);
    assert_eq!(key_action(Key::Enter, false), Some(Action::Select));
    assert_eq!(key_action(Key::Char(' '), false), Some(Action::Select));
    assert_eq!(key_action(Key::Char('x'), false), None);
}

#[test]
fn navigation_rules() {
    let v = navigate_up(Screen::Dashboard { selected: 0 });
    assert!(matches!(v, Screen::Dashboard { selected: 0 }));
    let v = navigate_up(Screen::Dashboard { selected: 3 });
    assert!(matches!(v, Screen::Dashboard { selected: 2 }));
    let v = navigate_down(Screen::Dashboard { selected: 2 }, 4, 0);
    assert!(matches!(v, Screen::Dashboard { selected: 3 }));
    let v = navigate_down(Screen::Dashboard { selected: 3 }, 4, 0);
    assert!(matches!(v, Screen::Dashboard { selected: 3 }));
    let v = navigate_down(
        Screen::History {
            selected: 0,
            offset: 50,
        },
        0,
        2,
    );
    assert!(matches!(
        v,
        Screen::History {
            selected: 1,
            offset: 50
        }
    ));
    let v = navigate_down(
        Screen::Detail {
            job_id: "j".to_string(),
            scroll: 7,
        },
        0,
        0,
    );
    assert!(matches!(v, Screen::Detail { scroll: 8, .. }));
}
