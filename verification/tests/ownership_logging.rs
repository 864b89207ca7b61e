//! Ownership formatting and log throttling.

use bksd::copy::{is_device_removed_error, IoKind};
use bksd::ownership::{choose_backup_owner, FileOwner};
use bksd::throttle::LogThrottle;

#[test]
fn test_file_owner_as_chown_arg() {
    let owner = FileOwner {
        user: "joshua".to_string(),
        group: "users".to_string(),
    };
    assert_eq!(owner.as_chown_arg(), "joshua:users");
}

#[test]
fn choose_owner_prefers_invoking_user() {
    let sudo = FileOwner {
        user: "alice".to_string(),
        group: "staff".to_string(),
    };
    let from_path = FileOwner {
        user: "root".to_string(),
        group: "root".to_string(),
    };
    let chosen = choose_backup_owner(Some(sudo), Some(from_path)).unwrap();
    assert_eq!(chosen.user, "alice");
    assert_eq!(chosen.group, "staff");
}

#[test]
fn choose_owner_falls_back_to_path_owner() {
    let from_path = FileOwner {
        user: "backup".to_string(),
        group: "backup".to_string(),
    };
    let chosen = choose_backup_owner(None, Some(from_path)).unwrap();
    assert_eq!(chosen.user, "backup");
    assert!(choose_backup_owner(None, None).is_none());
}

#[test]
fn throttle_allows_first_log() {
    let mut throttle = LogThrottle::new(1000);
    assert!(throttle.should_log());
}

#[test]
fn throttle_blocks_immediate_second_log() {
    let mut throttle = LogThrottle::new(1000);
    assert!(throttle.should_log());
    assert!(!throttle.should_log());
}

#[test]
fn throttle_reset_allows_log() {
    let mut throttle = LogThrottle::new(100000);
    assert!(throttle.should_log());
    assert!(!throttle.should_log());
    throttle.reset();
    assert!(throttle.should_log());
}

#[test]
fn throttle_at_explicit_times() {
    let mut throttle = LogThrottle::new(500);
    assert!(throttle.should_log_at(0));
    assert!(!throttle.should_log_at(200));
    assert!(!throttle.should_log_at(499));
    assert!(throttle.should_log_at(500));
    assert!(!throttle.should_log_at(700));
    assert!(throttle.should_log_at(1000));
}

#[test]
fn test_is_device_removed_error_eio() {
    assert!(is_device_removed_error(IoKind::Other, Some(libc::EIO)));
}

#[test]
fn test_is_device_removed_error_enodev() {
    assert!(is_device_removed_error(IoKind::Other, Some(libc::ENODEV)));
}

#[test]
fn test_is_device_removed_error_not_found() {
    assert!(is_device_removed_error(IoKind::NotFound, None));
}

#[test]
fn test_is_device_removed_error_permission_denied() {
    assert!(!is_device_removed_error(IoKind::PermissionDenied, None));
}

#[test]
fn device_removed_errnos() {
    assert!(is_device_removed_error(IoKind::Other, Some(libc::ENXIO)));
    assert!(is_device_removed_error(IoKind::Other, Some(libc::ENOMEDIUM)));
    assert!(is_device_removed_error(IoKind::Other, Some(libc::EMEDIUMTYPE)));
    assert!(is_device_removed_error(IoKind::BrokenPipe, None));
    assert!(is_device_removed_error(IoKind::ConnectionReset, None));
    assert!(is_device_removed_error(IoKind::ConnectionAborted, None));
    assert!(is_device_removed_error(IoKind::NotConnected, None));
    assert!(!is_device_removed_error(IoKind::Other, Some(libc::EACCES)));
    assert!(!is_device_removed_error(IoKind::Other, None));
}
