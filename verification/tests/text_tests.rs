use mcp_filesystem::repo::{find_git_repo, repo_marker_paths};
use mcp_filesystem::authorize::FsSnapshot;
use mcp_filesystem::text::{appended, from_chars, same_text, to_chars, to_decimal};
use mcp_filesystem::utilities::{graceful_shutdown, notifications_cancelled, notifications_initialized};
use mcp_filesystem::requests::CancelledNotification;

#[test]
fn decimal_digits() {
    assert_eq!(to_decimal(0), "0");
    assert_eq!(to_decimal(7), "7");
    assert_eq!(to_decimal(10), "10");
    assert_eq!(to_decimal(1234567890), "1234567890");
    assert_eq!(to_decimal(u64::MAX), "18446744073709551615");
    for n in [0u64, 1, 9, 10, 11, 99, 100, 101, 999, 1000, 65535, 4294967296] {
        assert_eq!(to_decimal(n), format!("{}", n));
    }
}

#[test]
fn characters_round_trip() {
    for s in ["", "a", "hello\n", "grüße", "日本語"] {
        assert_eq!(from_chars(&to_chars(s)), s);
        assert_eq!(to_chars(s), s.chars().collect::<Vec<char>>());
    }
}

#[test]
fn append_and_compare() {
    assert_eq!(appended("ab", "cd"), "abcd");
    assert_eq!(appended("", ""), "");
    assert!(same_text("abc", "abc"));
    assert!(!same_text("abc", "abd"));
    assert!(!same_text("abc", "ab"));
}

#[test]
fn markers_stand_below_each_directory_above() {
    assert_eq!(
        repo_marker_paths("/tmp/repo/src/a.rs"),
        vec!["/tmp/repo/src/.git", "/tmp/repo/.git", "/tmp/.git", "/.git"]
    );
    assert_eq!(repo_marker_paths("a.txt"), vec![".git"]);
    assert!(repo_marker_paths("/").is_empty());
}

#[test]
fn repository_is_the_nearest_directory_with_a_marker() {
    let mut fs = FsSnapshot::new();
    fs.record("/tmp/repo/src/.git".to_string(), false, None);
    fs.record("/tmp/repo/.git".to_string(), true, Some("/tmp/repo/.git".to_string()));
    fs.record("/.git".to_string(), true, None);
    assert_eq!(find_git_repo("/tmp/repo/src/a.rs", &fs), Some("/tmp/repo".to_string()));
    assert_eq!(find_git_repo("/other/a.rs", &fs), Some("/".to_string()));
    assert_eq!(find_git_repo("/tmp/repo", &fs), Some("/".to_string()));
    assert_eq!(find_git_repo("/", &fs), None);
    assert_eq!(find_git_repo("/x", &FsSnapshot::new()), None);
}

#[test]
fn a_directory_is_not_its_own_repository() {
    let mut fs = FsSnapshot::new();
    fs.record("/tmp/repo/.git".to_string(), true, None);
    assert_eq!(find_git_repo("/tmp/repo", &fs), None);
}

#[test]
fn notices_are_taken() {
    graceful_shutdown();
    notifications_initialized();
    notifications_cancelled(CancelledNotification { request_id: "7".to_string(), reason: None });
}
