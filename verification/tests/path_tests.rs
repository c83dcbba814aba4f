use mcp_filesystem::path::{
    path_ancestors, path_components, path_join, path_parent, path_starts_with,
    path_strip_prefix,
};
use std::path::Path;

fn samples() -> Vec<&'static str> {
    vec![
        "", "/", "//", "///", ".", "..", "./", "./.", "/.", "/..", "a", "a/", "a/b", "a//b",
        "a/./b", "a/b/.", "a/b/..", "./a", ".//a", "../a", "/a", "/a/", "/a/b", "/a//b/",
        "//a", "/a/./b", "/a/.", "/tmp/ws/a.txt", "/tmp/ws/../../etc/passwd", "/etc/foo.rs",
        "/etc/foo", "a.txt", ".git", "/home/user/.git", "a/b/c/d/e", "/a/b/c/", "..a", "a..",
        "...", "/.hidden/x", "./././x", "x/./././", "/./", "a b/c d", "é/ü", "/tmp/ws",
    ]
}

fn std_components(p: &str) -> Vec<String> {
    Path::new(p).components().map(|c| c.as_os_str().to_str().unwrap().to_string()).collect()
}

#[test]
fn components_agree_with_std() {
    for p in samples() {
        assert_eq!(path_components(p), std_components(p), "components of {:?}", p);
    }
}

#[test]
fn parent_agrees_with_std() {
    for p in samples() {
        let expected = Path::new(p).parent().map(|q| q.to_str().unwrap().to_string());
        assert_eq!(path_parent(p), expected, "parent of {:?}", p);
    }
}

#[test]
fn ancestors_agree_with_std() {
    for p in samples() {
        let expected: Vec<String> =
            Path::new(p).ancestors().map(|q| q.to_str().unwrap().to_string()).collect();
        assert_eq!(path_ancestors(p), expected, "ancestors of {:?}", p);
    }
}

#[test]
fn starts_with_agrees_with_std() {
    for p in samples() {
        for b in samples() {
            assert_eq!(
                path_starts_with(p, b),
                Path::new(p).starts_with(b),
                "{:?} starts with {:?}",
                p,
                b
            );
        }
    }
}

#[test]
fn join_agrees_with_std() {
    for b in samples() {
        for n in samples() {
            let expected = Path::new(b).join(n).to_str().unwrap().to_string();
            assert_eq!(path_join(b, n), expected, "{:?} joined with {:?}", b, n);
        }
    }
}

#[test]
fn components_of_named_paths() {
    assert_eq!(path_components("/tmp/ws/a.txt"), vec!["/", "tmp", "ws", "a.txt"]);
    assert_eq!(path_components("a/./b/../c/"), vec!["a", "b", "..", "c"]);
    assert_eq!(path_components("./a"), vec![".", "a"]);
    assert!(path_components("").is_empty());
}

#[test]
fn parent_of_named_paths() {
    assert_eq!(path_parent("/tmp/ws/a.txt"), Some("/tmp/ws".to_string()));
    assert_eq!(path_parent("/tmp"), Some("/".to_string()));
    assert_eq!(path_parent("/"), None);
    assert_eq!(path_parent("a"), Some("".to_string()));
    assert_eq!(path_parent(""), None);
}

#[test]
fn whole_components_only() {
    assert!(path_starts_with("/etc/passwd", "/etc"));
    assert!(!path_starts_with("/etc/foo.rs", "/etc/foo"));
    assert!(path_starts_with("/tmp/ws", "/tmp/ws/"));
    assert!(!path_starts_with("/tmp", "/tmp/ws"));
}

#[test]
fn strip_prefix_agrees_with_std() {
    for p in samples() {
        for b in samples() {
            let expected =
                Path::new(p).strip_prefix(b).ok().map(|q| q.to_str().unwrap().to_string());
            assert_eq!(path_strip_prefix(p, b), expected, "{:?} without {:?}", p, b);
        }
    }
}

#[test]
fn strip_prefix_of_named_paths() {
    assert_eq!(path_strip_prefix("/tmp/repo/src/a.rs", "/tmp/repo"), Some("src/a.rs".to_string()));
    assert_eq!(path_strip_prefix("/tmp/repo", "/tmp/repo"), Some("".to_string()));
    assert_eq!(path_strip_prefix("/tmp/repo", "/tmp/other"), None);
    assert_eq!(path_strip_prefix("/tmp/repo//x/", "/tmp/repo/"), Some("x".to_string()));
}
