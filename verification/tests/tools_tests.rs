use mcp_filesystem::authorize::FsSnapshot;
use mcp_filesystem::dispatch::{dispatch, Param, ParamValue, Params};
use mcp_filesystem::requests::{
    CreateDirectoryRequest, CurrentTimeRequest, FileEditRequest, GetFileInfoRequest,
    GetLocalTimeRequest, GrepSearchRequest, ListDirectoryRequest, MoveOrRenameRequest,
    OverwriteFileRequest, ReadFileRequest, ToolRequest,
};
use mcp_filesystem::results::{CallToolResult, CallToolResultContent};
use mcp_filesystem::tools::{
    create_directory, current_time, file_edit, get_file_info, get_local_time, grep_search,
    begin_call, list_directory, move_or_rename, overwrite_file, read_file, Action, DirEntry,
    Event, FileInfo, Phase, ToolRun,
};

/// A disk held in memory. Every path on it resolves to itself, but for the
/// links, which resolve to their targets.
struct Disk {
    files: Vec<(String, String)>,
    dirs: Vec<String>,
    links: Vec<(String, String)>,
    repos: Vec<String>,
    commits: Vec<(String, String, String)>,
    commit_fails: bool,
    has_grep: bool,
    searches: bool,
    touched: Vec<String>,
}

/// What the search program would print: each line of each file below the
/// path that holds the pattern, with the file and the number of the line.
fn search(d: &Disk, arguments: &[String]) -> Event {
    let path = &arguments[arguments.len() - 1];
    let pattern = &arguments[arguments.len() - 2];
    let below = format!("{}/", path);
    let mut out = String::new();
    for (file, content) in &d.files {
        if file == path || file.starts_with(&below) {
            for (number, line) in content.lines().enumerate() {
                if line.contains(pattern.as_str()) {
                    out.push_str(&format!("{}:{}:{}\n", file, number + 1, line));
                }
            }
        }
    }
    Event::Output { success: !out.is_empty(), stdout: out, stderr: String::new() }
}

fn disk() -> Disk {
    Disk {
        files: vec![],
        dirs: vec!["/".to_string(), "/tmp".to_string(), "/etc".to_string()],
        links: vec![],
        repos: vec![],
        commits: vec![],
        commit_fails: false,
        has_grep: true,
        searches: false,
        touched: vec![],
    }
}

fn workspace() -> Disk {
    let mut d = disk();
    d.dirs.push("/tmp/ws".to_string());
    d.files.push(("/tmp/ws/a.txt".to_string(), "hello\n".to_string()));
    d.files.push(("/etc/passwd".to_string(), "root:x:0:0\n".to_string()));
    d
}

fn file_of(d: &Disk, path: &str) -> Option<String> {
    d.files.iter().find(|(p, _)| p == path).map(|(_, c)| c.clone())
}

fn is_dir_on(d: &Disk, path: &str) -> bool {
    d.dirs.iter().any(|p| p == path)
}

fn present_on(d: &Disk, path: &str) -> bool {
    file_of(d, path).is_some()
        || is_dir_on(d, path)
        || d.links.iter().any(|(p, _)| p == path)
        || d.repos.iter().any(|r| format!("{}/.git", r) == path)
}

fn perform(d: &mut Disk, action: Action) -> Event {
    match action {
        Action::Probe { paths } => {
            let mut fs = FsSnapshot::new();
            for p in paths {
                let link = d.links.iter().find(|(l, _)| *l == p).map(|(_, t)| t.clone());
                let present = present_on(d, &p);
                let canonical = if present { Some(link.unwrap_or(p.clone())) } else { None };
                fs.record(p, present, canonical);
            }
            Event::Probed(fs)
        }
        Action::ReadFile { path } => {
            d.touched.push(path.clone());
            match file_of(d, &path) {
                Some(c) => Event::Content(c),
                None => Event::Failed("No such file or directory (os error 2)".to_string()),
            }
        }
        Action::WriteFile { path, content } => {
            d.touched.push(path.clone());
            if is_dir_on(d, &path) {
                return Event::Failed("Is a directory (os error 21)".to_string());
            }
            d.files.retain(|(p, _)| *p != path);
            d.files.push((path, content));
            Event::Done
        }
        Action::CreateDirAll { path } => {
            d.touched.push(path.clone());
            if file_of(d, &path).is_some() {
                return Event::Failed("File exists (os error 17)".to_string());
            }
            d.dirs.push(path);
            Event::Done
        }
        Action::Rename { from, to } => {
            d.touched.push(from.clone());
            d.touched.push(to.clone());
            match file_of(d, &from) {
                Some(c) => {
                    d.files.retain(|(p, _)| *p != from);
                    d.files.push((to, c));
                    Event::Done
                }
                None => Event::Failed("No such file or directory (os error 2)".to_string()),
            }
        }
        Action::Metadata { path } => {
            d.touched.push(path.clone());
            match file_of(d, &path) {
                Some(c) => Event::Info(FileInfo {
                    size: c.len() as u64,
                    file_type: "FileType { is_file: true, is_dir: false, is_symlink: false, .. }"
                        .to_string(),
                    modified: Some("SystemTime { tv_sec: 1, tv_nsec: 2 }".to_string()),
                }),
                None => Event::Failed("No such file or directory (os error 2)".to_string()),
            }
        }
        Action::ReadDir { path } => {
            d.touched.push(path.clone());
            if !is_dir_on(d, &path) {
                return Event::Failed("Not a directory (os error 20)".to_string());
            }
            let prefix = format!("{}/", path);
            let mut entries = vec![];
            let all = d
                .files
                .iter()
                .map(|(p, _)| p.clone())
                .chain(d.dirs.iter().cloned())
                .chain(d.links.iter().map(|(p, _)| p.clone()));
            for p in all {
                if let Some(name) = p.strip_prefix(&prefix) {
                    if !name.is_empty() && !name.contains('/') {
                        entries.push(DirEntry { path: p.clone(), name: name.to_string() });
                    }
                }
            }
            Event::Entries(entries)
        }
        Action::Commit { repo, path, relative, message } => {
            if d.commit_fails {
                return Event::Failed("reference 'refs/heads/master' not found".to_string());
            }
            assert_eq!(
                std::path::Path::new(&path).strip_prefix(&repo).ok().and_then(|p| p.to_str()),
                Some(relative.as_str())
            );
            d.commits.push((repo, path, message));
            d.touched.push(relative);
            Event::Done
        }
        Action::LocalTime => Event::Content("Wed, 28 Oct 2026 12:00:00 +0000".to_string()),
        Action::CheckGrep => {
            if d.has_grep {
                Event::Done
            } else {
                Event::Failed("not found".to_string())
            }
        }
        Action::Stat { path } => {
            d.touched.push(path.clone());
            Event::Kind { is_dir: is_dir_on(d, &path), present: present_on(d, &path) }
        }
        Action::RunGrep { arguments } => {
            d.touched.push(arguments.join(" "));
            if d.searches {
                return search(d, &arguments);
            }
            Event::Output {
                success: true,
                stdout: format!("grep {}", arguments.join(" ")),
                stderr: String::new(),
            }
        }
        Action::Finish(_) => unreachable!(),
    }
}

fn run_on(d: &mut Disk, request: ToolRequest, roots: &[&str]) -> CallToolResult {
    let dirs: Vec<String> = roots.iter().map(|s| s.to_string()).collect();
    let (mut run, mut action) = ToolRun::start(request, dirs);
    loop {
        if let Action::Finish(result) = action {
            assert!(run.is_finished());
            return result;
        }
        assert!(!run.is_finished());
        let event = perform(d, action);
        let (next_run, next_action) = run.step(event);
        run = next_run;
        action = next_action;
    }
}

fn text_of(result: &CallToolResult) -> String {
    assert_eq!(result.content.len(), 1);
    match &result.content[0] {
        CallToolResultContent::Text { text } => text.clone(),
    }
}

fn edit_request(path: &str, old: &str, new: &str, message: &str) -> ToolRequest {
    ToolRequest::FileEdit(FileEditRequest {
        file_path: path.to_string(),
        old_content: old.to_string(),
        new_content: new.to_string(),
        commit_message: message.to_string(),
    })
}

#[test]
fn edit_scenario_replaces_the_whole_content() {
    let mut d = workspace();
    let result = run_on(&mut d, edit_request("/tmp/ws/a.txt", "hello\n", "world", ""), &["/tmp/ws"]);
    assert!(!result.is_error);
    assert_eq!(text_of(&result), "File edited successfully");
    assert_eq!(file_of(&d, "/tmp/ws/a.txt"), Some("world".to_string()));
}

#[test]
fn read_outside_the_root_is_refused_and_nothing_is_read() {
    let mut d = workspace();
    let request = ToolRequest::ReadFile(ReadFileRequest { file_path: "/etc/passwd".to_string() });
    let result = run_on(&mut d, request, &["/tmp/ws"]);
    assert!(result.is_error);
    assert!(text_of(&result).starts_with("Access denied: /etc/passwd"));
    assert!(d.touched.is_empty());
}

#[test]
fn tools_test_file_edit_with_git() {
    let mut d = disk();
    d.dirs.push("/tmp/repo".to_string());
    d.repos.push("/tmp/repo".to_string());
    d.files.push(("/tmp/repo/test.txt".to_string(), "initial content\n".to_string()));
    let request =
        edit_request("/tmp/repo/test.txt", "initial content\n", "modified content", "Test commit");
    let result = run_on(&mut d, request, &["/tmp/repo"]);
    assert!(!result.is_error, "file_edit failed: {:?}", result.content);
    assert_eq!(file_of(&d, "/tmp/repo/test.txt"), Some("modified content".to_string()));
    assert_eq!(
        d.commits,
        vec![(
            "/tmp/repo".to_string(),
            "/tmp/repo/test.txt".to_string(),
            "Test commit".to_string()
        )]
    );
    assert_eq!(text_of(&result), "File edited successfully. Changes committed to git");
    assert_eq!(d.touched.last(), Some(&"test.txt".to_string()));
}

#[test]
fn tools_test_file_edit_without_git() {
    let mut d = disk();
    d.dirs.push("/tmp/plain".to_string());
    d.files.push(("/tmp/plain/test.txt".to_string(), "initial content".to_string()));
    let request = edit_request("/tmp/plain/test.txt", "initial content", "modified content", "");
    let result = run_on(&mut d, request, &["/tmp/plain"]);
    assert!(!result.is_error, "file_edit failed: {:?}", result.content);
    assert_eq!(file_of(&d, "/tmp/plain/test.txt"), Some("modified content".to_string()));
    assert!(d.commits.is_empty());
    assert_eq!(text_of(&result), "File edited successfully");
}

#[test]
fn failed_commit_does_not_fail_the_edit() {
    let mut d = disk();
    d.dirs.push("/tmp/repo".to_string());
    d.repos.push("/tmp/repo".to_string());
    d.commit_fails = true;
    d.files.push(("/tmp/repo/test.txt".to_string(), "one".to_string()));
    let result = run_on(&mut d, edit_request("/tmp/repo/test.txt", "one", "two", "m"), &["/tmp/repo"]);
    assert!(!result.is_error);
    assert_eq!(
        text_of(&result),
        "File edited successfully. Git commit failed: reference 'refs/heads/master' not found"
    );
    assert_eq!(file_of(&d, "/tmp/repo/test.txt"), Some("two".to_string()));
}

#[test]
fn nearest_repository_is_taken() {
    let mut d = disk();
    d.dirs.push("/tmp/outer".to_string());
    d.dirs.push("/tmp/outer/inner".to_string());
    d.repos.push("/tmp/outer".to_string());
    d.repos.push("/tmp/outer/inner".to_string());
    d.files.push(("/tmp/outer/inner/f".to_string(), "x".to_string()));
    let result =
        run_on(&mut d, edit_request("/tmp/outer/inner/f", "x", "y", "m"), &["/tmp/outer"]);
    assert!(!result.is_error);
    assert_eq!(d.commits[0].0, "/tmp/outer/inner");
}

#[test]
fn ambiguous_edit_leaves_the_file_untouched() {
    let mut d = workspace();
    d.files.push(("/tmp/ws/b.txt".to_string(), "ab ab".to_string()));
    let result = run_on(&mut d, edit_request("/tmp/ws/b.txt", "ab", "x", ""), &["/tmp/ws"]);
    assert!(result.is_error);
    assert_eq!(text_of(&result), "Found 2 matches of content - must match exactly once");
    assert_eq!(file_of(&d, "/tmp/ws/b.txt"), Some("ab ab".to_string()));
    let result = run_on(&mut d, edit_request("/tmp/ws/b.txt", "zz", "x", ""), &["/tmp/ws"]);
    assert!(result.is_error);
    assert_eq!(text_of(&result), "Found 0 matches of content - must match exactly once");
    assert_eq!(file_of(&d, "/tmp/ws/b.txt"), Some("ab ab".to_string()));
    assert_eq!(d.touched, vec!["/tmp/ws/b.txt", "/tmp/ws/b.txt"]);
}

#[test]
fn edit_of_a_missing_file_reports_the_disk_error() {
    let mut d = workspace();
    let result = run_on(&mut d, edit_request("/tmp/ws/none.txt", "a", "b", ""), &["/tmp/ws"]);
    assert!(result.is_error);
    assert_eq!(text_of(&result), "Error reading file: No such file or directory (os error 2)");
}

#[test]
fn edit_outside_the_root_is_refused() {
    let mut d = workspace();
    let result = run_on(&mut d, edit_request("/etc/passwd", "root", "toor", ""), &["/tmp/ws"]);
    assert!(result.is_error);
    assert_eq!(file_of(&d, "/etc/passwd"), Some("root:x:0:0\n".to_string()));
    assert!(d.touched.is_empty());
}

#[test]
fn read_file_returns_the_content() {
    let mut d = workspace();
    let request = ToolRequest::ReadFile(ReadFileRequest { file_path: "/tmp/ws/a.txt".to_string() });
    let result = run_on(&mut d, request, &["/tmp/ws"]);
    assert!(!result.is_error);
    assert_eq!(text_of(&result), "hello\n");
}

#[test]
fn nothing_is_allowed_without_roots() {
    let mut d = workspace();
    let request = ToolRequest::ReadFile(ReadFileRequest { file_path: "/tmp/ws/a.txt".to_string() });
    let result = run_on(&mut d, request, &[]);
    assert!(result.is_error);
    assert!(d.touched.is_empty());
}

#[test]
fn overwrite_creates_a_new_file() {
    let mut d = workspace();
    let request = ToolRequest::OverwriteFile(OverwriteFileRequest {
        path: "/tmp/ws/new.txt".to_string(),
        content: "fresh".to_string(),
    });
    let result = run_on(&mut d, request, &["/tmp/ws"]);
    assert!(!result.is_error);
    assert_eq!(text_of(&result), "File written successfully: /tmp/ws/new.txt");
    assert_eq!(file_of(&d, "/tmp/ws/new.txt"), Some("fresh".to_string()));
    assert!(d.commits.is_empty());
}

#[test]
fn overwrite_reports_the_disk_error() {
    let mut d = workspace();
    let request = ToolRequest::OverwriteFile(OverwriteFileRequest {
        path: "/tmp/ws".to_string(),
        content: "x".to_string(),
    });
    let result = run_on(&mut d, request, &["/tmp/ws"]);
    assert!(result.is_error);
    assert_eq!(text_of(&result), "Failed to write file: Is a directory (os error 21)");
}

#[test]
fn create_directory_in_a_repository_commits() {
    let mut d = workspace();
    d.repos.push("/tmp/ws".to_string());
    let request = ToolRequest::CreateDirectory(CreateDirectoryRequest {
        path: "/tmp/ws/sub/deep".to_string(),
        commit_message: "add dir".to_string(),
    });
    let result = run_on(&mut d, request, &["/tmp/ws"]);
    assert!(!result.is_error);
    assert_eq!(text_of(&result), "Created directory: /tmp/ws/sub/deep. Changes committed to git");
    assert!(is_dir_on(&d, "/tmp/ws/sub/deep"));
    assert_eq!(d.commits[0], ("/tmp/ws".to_string(), "/tmp/ws/sub/deep".to_string(), "add dir".to_string()));
}

#[test]
fn create_directory_reports_the_disk_error() {
    let mut d = workspace();
    let request = ToolRequest::CreateDirectory(CreateDirectoryRequest {
        path: "/tmp/ws/a.txt".to_string(),
        commit_message: String::new(),
    });
    let result = run_on(&mut d, request, &["/tmp/ws"]);
    assert!(result.is_error);
    assert_eq!(text_of(&result), "Failed to create directory: File exists (os error 17)");
}

fn move_request(from: &str, to: &str) -> ToolRequest {
    ToolRequest::MoveOrRename(MoveOrRenameRequest {
        source_path: from.to_string(),
        target_path: to.to_string(),
        commit_message: "move".to_string(),
    })
}

#[test]
fn move_inside_the_root() {
    let mut d = workspace();
    let result = run_on(&mut d, move_request("/tmp/ws/a.txt", "/tmp/ws/b.txt"), &["/tmp/ws"]);
    assert!(!result.is_error);
    assert_eq!(text_of(&result), "Moved or renamed successfully: /tmp/ws/a.txt to /tmp/ws/b.txt");
    assert_eq!(file_of(&d, "/tmp/ws/a.txt"), None);
    assert_eq!(file_of(&d, "/tmp/ws/b.txt"), Some("hello\n".to_string()));
}

#[test]
fn move_needs_both_paths_allowed() {
    let mut d = workspace();
    let result = run_on(&mut d, move_request("/etc/passwd", "/tmp/ws/p"), &["/tmp/ws"]);
    assert!(result.is_error);
    assert_eq!(
        text_of(&result),
        "Access denied: source path /etc/passwd is not within allowed directories"
    );
    let result = run_on(&mut d, move_request("/tmp/ws/a.txt", "/etc/a.txt"), &["/tmp/ws"]);
    assert!(result.is_error);
    assert_eq!(
        text_of(&result),
        "Access denied: target path /etc/a.txt is not within allowed directories"
    );
    assert!(d.touched.is_empty());
    assert_eq!(file_of(&d, "/tmp/ws/a.txt"), Some("hello\n".to_string()));
}

#[test]
fn move_reports_the_disk_error() {
    let mut d = workspace();
    let result = run_on(&mut d, move_request("/tmp/ws/none", "/tmp/ws/b"), &["/tmp/ws"]);
    assert!(result.is_error);
    assert_eq!(
        text_of(&result),
        "Failed to move or rename: No such file or directory (os error 2)"
    );
}

#[test]
fn file_info_is_laid_out_in_lines() {
    let mut d = workspace();
    let request = ToolRequest::GetFileInfo(GetFileInfoRequest { path: "/tmp/ws/a.txt".to_string() });
    let result = run_on(&mut d, request, &["/tmp/ws"]);
    assert!(!result.is_error);
    assert_eq!(
        text_of(&result),
        "File size: 6\nFile type: FileType { is_file: true, is_dir: false, is_symlink: false, .. }\nLast modified: SystemTime { tv_sec: 1, tv_nsec: 2 }\n"
    );
}

#[test]
fn file_info_of_a_missing_file() {
    let mut d = workspace();
    let request = ToolRequest::GetFileInfo(GetFileInfoRequest { path: "/tmp/ws/none".to_string() });
    let result = run_on(&mut d, request, &["/tmp/ws"]);
    assert!(result.is_error);
    assert_eq!(
        text_of(&result),
        "Error getting file info: No such file or directory (os error 2)"
    );
}

#[test]
fn listing_names_the_entries() {
    let mut d = workspace();
    d.files.push(("/tmp/ws/b.txt".to_string(), String::new()));
    d.dirs.push("/tmp/ws/sub".to_string());
    d.files.push(("/tmp/ws/sub/deep.txt".to_string(), String::new()));
    let request = ToolRequest::ListDirectory(ListDirectoryRequest { path: "/tmp/ws".to_string() });
    let result = run_on(&mut d, request, &["/tmp/ws"]);
    assert!(!result.is_error);
    assert_eq!(text_of(&result), "a.txt\nb.txt\nsub");
}

#[test]
fn listing_of_an_empty_directory() {
    let mut d = disk();
    d.dirs.push("/tmp/empty".to_string());
    let request = ToolRequest::ListDirectory(ListDirectoryRequest { path: "/tmp/empty".to_string() });
    let result = run_on(&mut d, request, &["/tmp/empty"]);
    assert!(!result.is_error);
    assert_eq!(text_of(&result), "");
}

#[test]
fn listing_hides_an_entry_that_is_not_allowed() {
    let dirs = vec!["/tmp/ws".to_string()];
    let request = ToolRequest::ListDirectory(ListDirectoryRequest { path: "/tmp/ws".to_string() });
    let run = ToolRun { request, allowed_dirs: dirs, phase: Phase::Listing };
    let entries = vec![
        DirEntry { path: "/tmp/ws/a.txt".to_string(), name: "a.txt".to_string() },
        DirEntry { path: "/mnt/elsewhere/secret".to_string(), name: "secret".to_string() },
    ];
    let (run, action) = run.step(Event::Entries(entries));
    let paths = match action {
        Action::Probe { paths } => paths,
        other => panic!("unexpected action {:?}", other),
    };
    assert_eq!(
        paths,
        vec![
            "/tmp/ws/a.txt", "/tmp/ws", "/tmp", "/", "/tmp/ws",
            "/mnt/elsewhere/secret", "/mnt/elsewhere", "/mnt", "/", "/tmp/ws",
        ]
    );
    let mut fs = FsSnapshot::new();
    for p in paths {
        fs.record(p.clone(), true, Some(p));
    }
    let (run, action) = run.step(Event::Probed(fs));
    assert!(run.is_finished());
    match action {
        Action::Finish(result) => {
            assert!(!result.is_error);
            assert_eq!(text_of(&result), "a.txt");
        }
        other => panic!("unexpected action {:?}", other),
    }
}

#[test]
fn listing_shows_a_link_below_the_directory() {
    let mut d = workspace();
    d.links.push(("/tmp/ws/escape".to_string(), "/etc".to_string()));
    let request = ToolRequest::ListDirectory(ListDirectoryRequest { path: "/tmp/ws".to_string() });
    let result = run_on(&mut d, request, &["/tmp/ws"]);
    assert!(!result.is_error);
    assert_eq!(text_of(&result), "a.txt\nescape");
}

#[test]
fn listing_outside_the_root_is_refused() {
    let mut d = workspace();
    let request = ToolRequest::ListDirectory(ListDirectoryRequest { path: "/etc".to_string() });
    let result = run_on(&mut d, request, &["/tmp/ws"]);
    assert!(result.is_error);
    assert!(d.touched.is_empty());
}

#[test]
fn listing_reports_the_disk_error() {
    let mut d = workspace();
    let request =
        ToolRequest::ListDirectory(ListDirectoryRequest { path: "/tmp/ws/a.txt".to_string() });
    let result = run_on(&mut d, request, &["/tmp/ws"]);
    assert!(result.is_error);
    assert_eq!(text_of(&result), "Error listing directory: Not a directory (os error 20)");
}

#[test]
fn time_tools_frame_the_time() {
    let mut d = disk();
    let request = ToolRequest::CurrentTime(CurrentTimeRequest { city: Some("Oslo".to_string()) });
    let result = run_on(&mut d, request, &[]);
    assert!(!result.is_error);
    assert_eq!(text_of(&result), "Now: Wed, 28 Oct 2026 12:00:00 +0000!");
    let result = run_on(&mut d, ToolRequest::GetLocalTime(GetLocalTimeRequest {}), &[]);
    assert!(!result.is_error);
    assert_eq!(text_of(&result), "Local time: Wed, 28 Oct 2026 12:00:00 +0000");
}

fn grep_request(path: &str, recursive: Option<bool>, case_sensitive: Option<bool>) -> ToolRequest {
    ToolRequest::GrepSearch(GrepSearchRequest {
        pattern: "TEST_MARKER".to_string(),
        path: path.to_string(),
        recursive,
        case_sensitive,
    })
}

#[test]
fn search_arguments() {
    let mut d = workspace();
    let result = run_on(&mut d, grep_request("/tmp/ws", Some(true), Some(true)), &["/tmp/ws"]);
    assert!(!result.is_error);
    assert_eq!(text_of(&result), "grep -n -r TEST_MARKER /tmp/ws");
    let result = run_on(&mut d, grep_request("/tmp/ws", None, None), &["/tmp/ws"]);
    assert_eq!(text_of(&result), "grep -n -r TEST_MARKER /tmp/ws");
    let result = run_on(&mut d, grep_request("/tmp/ws/a.txt", Some(false), Some(false)), &["/tmp/ws"]);
    assert_eq!(text_of(&result), "grep -n -i TEST_MARKER /tmp/ws/a.txt");
    let result = run_on(&mut d, grep_request("/tmp/ws", Some(true), Some(false)), &["/tmp/ws"]);
    assert_eq!(text_of(&result), "grep -n -i -r TEST_MARKER /tmp/ws");
}

#[test]
fn search_checks_the_path() {
    let mut d = workspace();
    let result = run_on(&mut d, grep_request("/tmp/ws/a.txt", Some(true), None), &["/tmp/ws"]);
    assert!(result.is_error);
    assert_eq!(text_of(&result), "Path must be a directory for recursive search");
    let result = run_on(&mut d, grep_request("/tmp/ws/none", Some(false), None), &["/tmp/ws"]);
    assert!(result.is_error);
    assert_eq!(text_of(&result), "Path does not exist");
    let result = run_on(&mut d, grep_request("/etc", Some(true), None), &["/tmp/ws"]);
    assert!(result.is_error);
    assert!(text_of(&result).starts_with("Access denied: /etc "));
}

#[test]
fn search_without_the_program() {
    let mut d = workspace();
    d.has_grep = false;
    let result = run_on(&mut d, grep_request("/tmp/ws", None, None), &["/tmp/ws"]);
    assert!(result.is_error);
    assert_eq!(text_of(&result), "grep command not found on system");
    assert!(d.touched.is_empty());
}

#[test]
fn search_that_fails() {
    let request = grep_request("/tmp/ws", None, None);
    let run = ToolRun { request, allowed_dirs: vec!["/tmp/ws".to_string()], phase: Phase::Searching };
    let (_, action) = run.step(Event::Output {
        success: false,
        stdout: String::new(),
        stderr: "grep: bad pattern".to_string(),
    });
    match action {
        Action::Finish(result) => {
            assert!(result.is_error);
            assert_eq!(text_of(&result), "Grep error: grep: bad pattern");
        }
        other => panic!("unexpected action {:?}", other),
    }
    let request = grep_request("/tmp/ws", None, None);
    let run = ToolRun { request, allowed_dirs: vec!["/tmp/ws".to_string()], phase: Phase::Searching };
    let (_, action) = run.step(Event::Failed("cannot spawn".to_string()));
    match action {
        Action::Finish(result) => {
            assert!(result.is_error);
            assert_eq!(text_of(&result), "Failed to execute grep: cannot spawn");
        }
        other => panic!("unexpected action {:?}", other),
    }
}

#[test]
fn an_event_that_was_not_waited_for_ends_the_run() {
    let request = ToolRequest::ReadFile(ReadFileRequest { file_path: "/tmp/ws/a.txt".to_string() });
    let (run, action) = ToolRun::start(request, vec!["/tmp/ws".to_string()]);
    assert!(matches!(action, Action::Probe { .. }));
    let (run, action) = run.step(Event::Content("hello".to_string()));
    assert!(run.is_finished());
    match action {
        Action::Finish(result) => {
            assert!(result.is_error);
            assert_eq!(text_of(&result), "Internal error: unexpected event");
        }
        other => panic!("unexpected action {:?}", other),
    }
    let (run, action) = run.step(Event::Done);
    assert!(run.is_finished());
    assert!(matches!(action, Action::Finish(CallToolResult { is_error: true, .. })));
}

#[test]
fn dispatch_then_run() {
    let mut d = workspace();
    let bag = Params::Fields(vec![
        Param { name: "file_path".to_string(), value: ParamValue::Text("/tmp/ws/a.txt".to_string()) },
        Param { name: "old_content".to_string(), value: ParamValue::Text("hello\n".to_string()) },
        Param { name: "new_content".to_string(), value: ParamValue::Text("world".to_string()) },
        Param { name: "commit_message".to_string(), value: ParamValue::Text(String::new()) },
    ]);
    let request = dispatch("file_edit", &bag).unwrap();
    let result = run_on(&mut d, request, &["/tmp/ws"]);
    assert!(!result.is_error);
    assert_eq!(file_of(&d, "/tmp/ws/a.txt"), Some("world".to_string()));
}

#[test]
fn a_call_with_a_missing_parameter_touches_nothing() {
    let d = workspace();
    let bag = Params::Fields(vec![Param {
        name: "file_path".to_string(),
        value: ParamValue::Text("/tmp/ws/a.txt".to_string()),
    }]);
    assert!(dispatch("file_edit", &bag).is_err());
    assert!(d.touched.is_empty());
    assert_eq!(file_of(&d, "/tmp/ws/a.txt"), Some("hello\n".to_string()));
}

#[test]
fn each_tool_begins_with_its_question() {
    let dirs = vec!["/tmp/ws".to_string()];
    let (_, action) = current_time(CurrentTimeRequest { city: None }, dirs.clone());
    assert!(matches!(action, Action::LocalTime));
    let (_, action) = get_local_time(GetLocalTimeRequest {}, dirs.clone());
    assert!(matches!(action, Action::LocalTime));
    let request = GrepSearchRequest {
        pattern: "x".to_string(),
        path: "/tmp/ws".to_string(),
        recursive: None,
        case_sensitive: None,
    };
    let (_, action) = grep_search(request, dirs.clone());
    assert!(matches!(action, Action::CheckGrep));
    let expected = vec!["/tmp/ws/a", "/tmp/ws", "/tmp", "/", "/tmp/ws"];
    let probes = |action: Action| match action {
        Action::Probe { paths } => paths,
        other => panic!("unexpected action {:?}", other),
    };
    let (_, action) = read_file(ReadFileRequest { file_path: "/tmp/ws/a".to_string() }, dirs.clone());
    assert_eq!(probes(action), expected);
    let request = FileEditRequest {
        file_path: "/tmp/ws/a".to_string(),
        old_content: "a".to_string(),
        new_content: "b".to_string(),
        commit_message: String::new(),
    };
    let (_, action) = file_edit(request, dirs.clone());
    assert_eq!(probes(action), expected);
    let request = OverwriteFileRequest { path: "/tmp/ws/a".to_string(), content: String::new() };
    let (_, action) = overwrite_file(request, dirs.clone());
    assert_eq!(probes(action), expected);
    let request =
        CreateDirectoryRequest { path: "/tmp/ws/a".to_string(), commit_message: String::new() };
    let (_, action) = create_directory(request, dirs.clone());
    assert_eq!(probes(action), expected);
    let (_, action) = list_directory(ListDirectoryRequest { path: "/tmp/ws/a".to_string() }, dirs.clone());
    assert_eq!(probes(action), expected);
    let (_, action) = get_file_info(GetFileInfoRequest { path: "/tmp/ws/a".to_string() }, dirs.clone());
    assert_eq!(probes(action), expected);
    let request = MoveOrRenameRequest {
        source_path: "/tmp/ws/a".to_string(),
        target_path: "/b".to_string(),
        commit_message: String::new(),
    };
    let (_, action) = move_or_rename(request, dirs);
    assert_eq!(
        probes(action),
        vec!["/tmp/ws/a", "/tmp/ws", "/tmp", "/", "/tmp/ws", "/b", "/", "/tmp/ws"]
    );
}

#[test]
fn test_grep_search() {
    let mut d = disk();
    d.searches = true;
    d.dirs.push("/tmp/search".to_string());
    d.dirs.push("/tmp/search/subdir".to_string());
    d.files.push((
        "/tmp/search/test1.txt".to_string(),
        "Hello World\nTEST_MARKER line\nAnother test".to_string(),
    ));
    d.files.push((
        "/tmp/search/test2.txt".to_string(),
        "Different content\nTEST_MARKER pattern here".to_string(),
    ));
    d.files.push((
        "/tmp/search/subdir/test3.txt".to_string(),
        "More test content\nTEST_MARKER final".to_string(),
    ));
    let request = ToolRequest::GrepSearch(GrepSearchRequest {
        pattern: "TEST_MARKER".to_string(),
        path: "/tmp/search".to_string(),
        recursive: Some(true),
        case_sensitive: Some(true),
    });
    let result = run_on(&mut d, request, &["/tmp/search"]);
    assert!(!result.is_error, "Grep search failed");
    assert_eq!(result.content.len(), 1);
    let text = text_of(&result);
    assert!(text.contains("test1.txt"), "Output should contain test1.txt");
    assert!(text.contains("test2.txt"), "Output should contain test2.txt");
    assert!(text.contains("test3.txt"), "Output should contain test3.txt");
}

#[test]
fn a_call_begins_from_its_name_and_parameters() {
    let bag = Params::Fields(vec![Param {
        name: "file_path".to_string(),
        value: ParamValue::Text("/tmp/ws/a.txt".to_string()),
    }]);
    let (run, action) = begin_call("read_file", &bag, vec!["/tmp/ws".to_string()]).unwrap();
    assert!(matches!(run.request, ToolRequest::ReadFile(_)));
    assert!(matches!(action, Action::Probe { .. }));
    assert!(begin_call("read_file", &Params::Absent, vec![]).is_err());
    assert!(begin_call("remove_file", &bag, vec![]).is_err());
}
