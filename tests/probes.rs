use kube_audit::probes::{
    check_file_not_mode, decimal_string, ensure_file_owner_and_group_root, mask_at_most_600,
    mask_at_most_644,
    unreadable, FileStat,
};
use kube_audit::results::CheckStatus;

fn stat(mode: u32, uid: u32, gid: u32) -> Option<FileStat> {
    Some(FileStat { mode, uid, gid })
}

#[test]
fn masks_have_expected_bits() {
    assert_eq!(mask_at_most_644(), 0o133);
    assert_eq!(mask_at_most_600(), 0o177);
}

#[test]
fn mode_644_passes_644_mask() {
    let r = check_file_not_mode("/etc/a", stat(0o100644, 0, 0), mask_at_most_644());
    assert_eq!(r.status, CheckStatus::PASS);
    assert!(r.error.is_empty());
}

#[test]
fn mode_777_fails_644_mask() {
    let r = check_file_not_mode("/etc/a", stat(0o100777, 0, 0), mask_at_most_644());
    assert_eq!(r.status, CheckStatus::FAIL);
    assert_eq!(r.error, "file '/etc/a' has permissions beyond those allowed");
}

#[test]
fn mode_644_fails_600_mask() {
    let r = check_file_not_mode("/etc/b", stat(0o644, 0, 0), mask_at_most_600());
    assert_eq!(r.status, CheckStatus::FAIL);
    assert!(r.error.contains("/etc/b"));
    let r = check_file_not_mode("/etc/b", stat(0o600, 0, 0), mask_at_most_600());
    assert_eq!(r.status, CheckStatus::PASS);
}

#[test]
fn unreadable_mode_target_fails() {
    let r = check_file_not_mode("/missing", None, mask_at_most_644());
    assert_eq!(r.status, CheckStatus::FAIL);
    assert_eq!(r.error, "unable to read '/missing'");
    assert_eq!(unreadable("/x"), "unable to read '/x'");
}

#[test]
fn root_owned_file_passes() {
    let r = ensure_file_owner_and_group_root("/etc/a", stat(0o644, 0, 0));
    assert_eq!(r.status, CheckStatus::PASS);
    assert!(r.error.is_empty());
}

#[test]
fn non_root_owner_fails_naming_owner() {
    let r = ensure_file_owner_and_group_root("/etc/a", stat(0o644, 1000, 0));
    assert_eq!(r.status, CheckStatus::FAIL);
    assert!(r.error.contains("1000"));
    assert_eq!(r.error, "file '/etc/a' is owned by 1000:0, not root:root");
}

#[test]
fn non_root_group_fails() {
    let r = ensure_file_owner_and_group_root("/etc/a", stat(0o644, 0, 4294967295));
    assert_eq!(r.status, CheckStatus::FAIL);
    assert_eq!(r.error, "file '/etc/a' is owned by 0:4294967295, not root:root");
}

#[test]
fn unreadable_owner_target_fails() {
    let r = ensure_file_owner_and_group_root("/missing", None);
    assert_eq!(r.status, CheckStatus::FAIL);
    assert_eq!(r.error, "unable to read '/missing'");
}

#[test]
fn default_result_is_not_passing() {
    let r = kube_audit::results::CheckerResult::default();
    assert_eq!(r.status, CheckStatus::FAIL);
    assert!(r.error.is_empty());
}

#[test]
fn decimal_notation() {
    assert_eq!(decimal_string(0), "0");
    assert_eq!(decimal_string(9), "9");
    assert_eq!(decimal_string(10), "10");
    assert_eq!(decimal_string(4294967295), "4294967295");
}
