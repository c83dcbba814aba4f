use mcp_filesystem::authorize::{
    authorize, is_path_allowed, probe_paths, validate_path_or_error, validate_paths_or_error,
    Denial, FsSnapshot, PathDecision,
};

fn dirs(list: &[&str]) -> Vec<String> {
    list.iter().map(|s| s.to_string()).collect()
}

/// A disk on which each of `present` exists and resolves to itself.
fn plain_disk(present: &[&str]) -> FsSnapshot {
    let mut fs = FsSnapshot::new();
    for p in present {
        fs.record(p.to_string(), true, Some(p.to_string()));
    }
    fs
}

#[test]
fn no_roots_denies_everything() {
    let fs = plain_disk(&["/", "/tmp", "/tmp/ws", "/tmp/ws/a.txt"]);
    let none = dirs(&[]);
    for p in ["/", "/tmp/ws/a.txt", "/tmp/ws", "", "relative"] {
        assert!(!is_path_allowed(p, &none, &fs));
        assert_eq!(authorize(p, &none, &fs), PathDecision::Denied(Denial::NoRoots));
    }
}

#[test]
fn file_inside_root_is_allowed() {
    let fs = plain_disk(&["/", "/tmp", "/tmp/ws", "/tmp/ws/a.txt"]);
    assert!(is_path_allowed("/tmp/ws/a.txt", &dirs(&["/tmp/ws"]), &fs));
    assert!(is_path_allowed("/tmp/ws", &dirs(&["/tmp/ws"]), &fs));
}

#[test]
fn file_outside_root_is_denied() {
    let fs = plain_disk(&["/", "/etc", "/etc/passwd", "/tmp", "/tmp/ws"]);
    assert_eq!(
        authorize("/etc/passwd", &dirs(&["/tmp/ws"]), &fs),
        PathDecision::Denied(Denial::OutsideRoots)
    );
    assert!(!is_path_allowed("/tmp", &dirs(&["/tmp/ws"]), &fs));
    assert!(!is_path_allowed("/", &dirs(&["/tmp/ws"]), &fs));
}

#[test]
fn sibling_with_longer_name_is_denied() {
    let fs = plain_disk(&["/", "/tmp", "/tmp/ws", "/tmp/ws2", "/tmp/ws2/a.txt"]);
    assert!(!is_path_allowed("/tmp/ws2/a.txt", &dirs(&["/tmp/ws"]), &fs));
}

#[test]
fn new_file_under_existing_directory_is_allowed() {
    let fs = plain_disk(&["/", "/tmp", "/tmp/ws"]);
    assert!(is_path_allowed("/tmp/ws/new/deep/file.txt", &dirs(&["/tmp/ws"]), &fs));
}

#[test]
fn new_file_is_allowed_through_its_resolved_ancestor() {
    let mut fs = FsSnapshot::new();
    fs.record("/data/ws".to_string(), true, Some("/data/ws".to_string()));
    fs.record("link".to_string(), true, Some("/data/ws/sub".to_string()));
    fs.record("link/new.txt".to_string(), false, None);
    assert!(is_path_allowed("link/new.txt", &dirs(&["/data/ws"]), &fs));
}

#[test]
fn link_below_an_allowed_directory_is_allowed_through_its_parent() {
    let mut fs = FsSnapshot::new();
    fs.record("/tmp/ws".to_string(), true, Some("/tmp/ws".to_string()));
    fs.record("/tmp/ws/escape".to_string(), true, Some("/etc".to_string()));
    fs.record("/tmp".to_string(), true, Some("/tmp".to_string()));
    fs.record("/".to_string(), true, Some("/".to_string()));
    assert!(is_path_allowed("/tmp/ws/escape", &dirs(&["/tmp/ws"]), &fs));
}

#[test]
fn link_outside_every_allowed_directory_is_denied() {
    let mut fs = FsSnapshot::new();
    fs.record("/tmp/ws".to_string(), true, Some("/tmp/ws".to_string()));
    fs.record("/srv/escape".to_string(), true, Some("/etc".to_string()));
    fs.record("/srv".to_string(), true, Some("/srv".to_string()));
    fs.record("/".to_string(), true, Some("/".to_string()));
    assert!(!is_path_allowed("/srv/escape", &dirs(&["/tmp/ws"]), &fs));
}

#[test]
fn link_into_an_allowed_directory_is_allowed() {
    let mut fs = FsSnapshot::new();
    fs.record("/tmp/ws".to_string(), true, Some("/tmp/ws".to_string()));
    fs.record("/srv/into".to_string(), true, Some("/tmp/ws/data".to_string()));
    assert!(is_path_allowed("/srv/into", &dirs(&["/tmp/ws"]), &fs));
}

#[test]
fn dotdot_that_resolves_back_under_the_root() {
    let mut fs = FsSnapshot::new();
    fs.record("/tmp/ws".to_string(), true, Some("/tmp/ws".to_string()));
    fs.record("/tmp/ws/sub/../a.txt".to_string(), true, Some("/tmp/ws/a.txt".to_string()));
    assert!(is_path_allowed("/tmp/ws/sub/../a.txt", &dirs(&["/tmp/ws"]), &fs));
}

#[test]
fn dotdot_that_resolves_out_of_the_root() {
    let mut fs = FsSnapshot::new();
    fs.record("/tmp/ws".to_string(), true, Some("/tmp/ws".to_string()));
    fs.record("/tmp/other".to_string(), true, Some("/tmp/other".to_string()));
    fs.record("/tmp/other/../x".to_string(), true, Some("/tmp/x".to_string()));
    fs.record("/tmp/other/..".to_string(), true, Some("/tmp".to_string()));
    fs.record("/tmp".to_string(), true, Some("/tmp".to_string()));
    fs.record("/".to_string(), true, Some("/".to_string()));
    assert!(!is_path_allowed("/tmp/other/../x", &dirs(&["/tmp/ws"]), &fs));
}

#[test]
fn root_that_does_not_exist_matches_nothing() {
    let fs = plain_disk(&["/", "/tmp", "/tmp/gone/a.txt"]);
    assert!(!is_path_allowed("/tmp/gone/a.txt", &dirs(&["/tmp/gone"]), &fs));
}

#[test]
fn root_is_compared_in_its_resolved_form() {
    let mut fs = FsSnapshot::new();
    fs.record("/var/ws".to_string(), true, Some("/private/var/ws".to_string()));
    fs.record("/private/var/ws/a".to_string(), true, Some("/private/var/ws/a".to_string()));
    assert!(is_path_allowed("/private/var/ws/a", &dirs(&["/var/ws"]), &fs));
}

#[test]
fn second_root_can_admit() {
    let fs = plain_disk(&["/", "/a", "/b", "/b/x"]);
    assert!(is_path_allowed("/b/x", &dirs(&["/a", "/b"]), &fs));
    assert!(!is_path_allowed("/c/x", &dirs(&["/a", "/b"]), &fs));
}

#[test]
fn first_answer_for_a_path_counts() {
    let mut fs = FsSnapshot::new();
    fs.record("/tmp/ws".to_string(), true, Some("/tmp/ws".to_string()));
    fs.record("/x".to_string(), true, Some("/etc/x".to_string()));
    fs.record("/x".to_string(), true, Some("/tmp/ws/x".to_string()));
    fs.record("/".to_string(), true, Some("/".to_string()));
    assert!(!is_path_allowed("/x", &dirs(&["/tmp/ws"]), &fs));
    assert_eq!(fs.lookup_canonical("/x"), Some("/etc/x".to_string()));
    assert!(fs.lookup_present("/x"));
    assert!(!fs.lookup_present("/y"));
    assert_eq!(fs.lookup_canonical("/y"), None);
}

#[test]
fn probes_are_ancestors_then_roots() {
    assert_eq!(
        probe_paths("/tmp/ws/a.txt", &dirs(&["/tmp/ws", "/home"])),
        vec!["/tmp/ws/a.txt", "/tmp/ws", "/tmp", "/", "/tmp/ws", "/home"]
    );
}

#[test]
fn denied_message_names_the_path() {
    let fs = plain_disk(&["/", "/etc", "/etc/passwd", "/tmp/ws"]);
    let r = validate_path_or_error("/etc/passwd", &dirs(&["/tmp/ws"]), &fs);
    assert_eq!(
        r,
        Err("Access denied: /etc/passwd is not within allowed directories. Use the allowed_directories resource to view permitted locations.".to_string())
    );
    assert_eq!(validate_path_or_error("/tmp/ws/a", &dirs(&["/tmp/ws"]), &fs), Ok(()));
}

#[test]
fn move_names_the_refused_side() {
    let fs = plain_disk(&["/", "/etc", "/tmp", "/tmp/ws", "/tmp/ws/a"]);
    let allowed = dirs(&["/tmp/ws"]);
    assert_eq!(
        validate_paths_or_error("/etc/a", "/tmp/ws/b", &allowed, &fs),
        Err("Access denied: source path /etc/a is not within allowed directories".to_string())
    );
    assert_eq!(
        validate_paths_or_error("/tmp/ws/a", "/etc/b", &allowed, &fs),
        Err("Access denied: target path /etc/b is not within allowed directories".to_string())
    );
    assert_eq!(
        validate_paths_or_error("/etc/a", "/etc/b", &allowed, &fs),
        Err("Access denied: source path /etc/a is not within allowed directories".to_string())
    );
    assert_eq!(validate_paths_or_error("/tmp/ws/a", "/tmp/ws/b", &allowed, &fs), Ok(()));
}
