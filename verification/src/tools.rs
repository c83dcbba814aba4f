//! The tools as a state machine.
//!
//! A tool call alternates work on the disk with decisions. The decisions are
//! made here: a run hands out one action at a time, the host performs it and
//! hands back what happened, and the run answers with the next action or
//! with the result. No action on a file is handed out before every path of
//! the call has been found allowed.
use crate::authorize::{
    authorize, decision, denied_message, denied_role_message, probe_paths,
    validate_path_or_error, validate_paths_or_error, wanted_probes, FsSnapshot, PathDecision,
};
use crate::dispatch::{dispatch, dispatched, DispatchError, DispatchFault, Params};
use crate::edit::{apply_edit, clip, count_matches, edited};
use crate::path::{path_strip_prefix, strip_prefix};
use crate::repo::{find_git_repo, git_repo, marker_paths, repo_marker_paths};
use crate::requests::{
    paths_of, CreateDirectoryRequest, CurrentTimeRequest, FileEditRequest, GetFileInfoRequest,
    GetLocalTimeRequest, GrepSearchRequest, ListDirectoryRequest, MoveOrRenameRequest,
    OverwriteFileRequest, ReadFileRequest, ToolCall, ToolRequest,
};
use crate::results::{failure, success, CallToolResult, Outcome};
use crate::text::{appended, decimal, to_decimal, views};
use vstd::prelude::*;

verus! {

/// One entry of a directory, as the disk listed it.
#[derive(Debug)]
pub struct DirEntry {
    pub path: String,
    pub name: String,
}

/// What the disk knows of a file. The kind and the time are texts that the
/// host wrote.
#[derive(Debug)]
pub struct FileInfo {
    pub size: u64,
    pub file_type: String,
    pub modified: Option<String>,
}

/// What the host is asked to do next.
#[derive(Debug)]
pub enum Action {
    /// Ask the disk, for each path, whether it exists and what it resolves to.
    Probe { paths: Vec<String> },
    ReadFile { path: String },
    WriteFile { path: String, content: String },
    CreateDirAll { path: String },
    Rename { from: String, to: String },
    Metadata { path: String },
    ReadDir { path: String },
    /// Commit `path` in the repository at `repo`; `relative` is the path as
    /// the repository knows it.
    Commit { repo: String, path: String, relative: String, message: String },
    /// Give the local time as a text.
    LocalTime,
    /// Find out whether the search program can be run.
    CheckGrep,
    /// Find out whether `path` exists and whether it is a directory.
    Stat { path: String },
    /// Run the search program with these arguments.
    RunGrep { arguments: Vec<String> },
    /// The call is over: hand this result to the caller.
    Finish(CallToolResult),
}

/// What happened when the host did what it was asked.
#[derive(Debug)]
pub enum Event {
    Probed(FsSnapshot),
    /// The action went well and has nothing to show.
    Done,
    /// The action failed; the text is the system's own message.
    Failed(String),
    Content(String),
    Entries(Vec<DirEntry>),
    Info(FileInfo),
    Kind { is_dir: bool, present: bool },
    Output { success: bool, stdout: String, stderr: String },
}

/// Where a run stands: what it waits for.
#[derive(Debug)]
pub enum Phase {
    Timing,
    CheckingGrep,
    Authorizing,
    Reading,
    Writing,
    Creating,
    Renaming,
    Inspecting,
    Listing,
    Filtering { entries: Vec<DirEntry> },
    LocatingRepo { note: String },
    Committing { note: String },
    Stating,
    Searching,
    Finished,
}

/// A directory entry as contracts read it.
pub ghost struct Listed {
    pub path: Seq<char>,
    pub name: Seq<char>,
}

/// The entries of `v` as contracts read them.
pub open spec fn listed(v: Seq<DirEntry>) -> Seq<Listed> {
    Seq::new(v.len(), |k: int| Listed { path: v[k].path@, name: v[k].name@ })
}

/// An action as contracts read it.
pub ghost enum Step {
    Probe { paths: Seq<Seq<char>> },
    ReadFile { path: Seq<char> },
    WriteFile { path: Seq<char>, content: Seq<char> },
    CreateDirAll { path: Seq<char> },
    Rename { from: Seq<char>, to: Seq<char> },
    Metadata { path: Seq<char> },
    ReadDir { path: Seq<char> },
    Commit { repo: Seq<char>, path: Seq<char>, relative: Seq<char>, message: Seq<char> },
    LocalTime,
    CheckGrep,
    Stat { path: Seq<char> },
    RunGrep { arguments: Seq<Seq<char>> },
    Finish(Outcome),
}

impl View for Action {
    type V = Step;

    open spec fn view(&self) -> Step {
        match self {
            Action::Probe { paths } => Step::Probe { paths: views(paths@) },
            Action::ReadFile { path } => Step::ReadFile { path: path@ },
            Action::WriteFile { path, content } => Step::WriteFile {
                path: path@,
                content: content@,
            },
            Action::CreateDirAll { path } => Step::CreateDirAll { path: path@ },
            Action::Rename { from, to } => Step::Rename { from: from@, to: to@ },
            Action::Metadata { path } => Step::Metadata { path: path@ },
            Action::ReadDir { path } => Step::ReadDir { path: path@ },
            Action::Commit { repo, path, relative, message } => Step::Commit {
                repo: repo@,
                path: path@,
                relative: relative@,
                message: message@,
            },
            Action::LocalTime => Step::LocalTime,
            Action::CheckGrep => Step::CheckGrep,
            Action::Stat { path } => Step::Stat { path: path@ },
            Action::RunGrep { arguments } => Step::RunGrep { arguments: views(arguments@) },
            Action::Finish(result) => Step::Finish(result@),
        }
    }
}

/// A phase as contracts read it.
pub ghost enum Stage {
    Timing,
    CheckingGrep,
    Authorizing,
    Reading,
    Writing,
    Creating,
    Renaming,
    Inspecting,
    Listing,
    Filtering { entries: Seq<Listed> },
    LocatingRepo { note: Seq<char> },
    Committing { note: Seq<char> },
    Stating,
    Searching,
    Finished,
}

impl View for Phase {
    type V = Stage;

    open spec fn view(&self) -> Stage {
        match self {
            Phase::Timing => Stage::Timing,
            Phase::CheckingGrep => Stage::CheckingGrep,
            Phase::Authorizing => Stage::Authorizing,
            Phase::Reading => Stage::Reading,
            Phase::Writing => Stage::Writing,
            Phase::Creating => Stage::Creating,
            Phase::Renaming => Stage::Renaming,
            Phase::Inspecting => Stage::Inspecting,
            Phase::Listing => Stage::Listing,
            Phase::Filtering { entries } => Stage::Filtering { entries: listed(entries@) },
            Phase::LocatingRepo { note } => Stage::LocatingRepo { note: note@ },
            Phase::Committing { note } => Stage::Committing { note: note@ },
            Phase::Stating => Stage::Stating,
            Phase::Searching => Stage::Searching,
            Phase::Finished => Stage::Finished,
        }
    }
}

/// The paths to ask the disk about before the decision on each of `paths`.
pub open spec fn probes_for(dirs: Seq<Seq<char>>, paths: Seq<Seq<char>>) -> Seq<Seq<char>>
    decreases paths.len(),
{
    if paths.len() == 0 {
        seq![]
    } else {
        probes_for(dirs, paths.drop_last()) + wanted_probes(dirs, paths.last())
    }
}

/// Whether every path of `paths` is allowed.
pub open spec fn all_allowed(fs: FsSnapshot, dirs: Seq<Seq<char>>, paths: Seq<Seq<char>>) -> bool {
    forall|k: int|
        0 <= k < paths.len() ==> decision(fs, dirs, #[trigger] paths[k]) == PathDecision::Allowed
}

/// The message for the first path of the call that is refused, if one is.
/// Of the two paths of a move the source is looked at first, and the message
/// says which of the two it was.
pub open spec fn refusal(fs: FsSnapshot, dirs: Seq<Seq<char>>, call: ToolCall) -> Option<
    Seq<char>,
> {
    match call {
        ToolCall::MoveOrRename { source_path, target_path, .. } => {
            if decision(fs, dirs, source_path) != PathDecision::Allowed {
                Some(denied_role_message("source"@, source_path))
            } else if decision(fs, dirs, target_path) != PathDecision::Allowed {
                Some(denied_role_message("target"@, target_path))
            } else {
                None
            }
        },
        _ => {
            if paths_of(call).len() == 1 && decision(fs, dirs, paths_of(call)[0])
                != PathDecision::Allowed {
                Some(denied_message(paths_of(call)[0]))
            } else {
                None
            }
        },
    }
}

/// The end of a run with a result.
pub open spec fn finish(outcome: Outcome) -> (Stage, Step) {
    (Stage::Finished, Step::Finish(outcome))
}

/// The end of a run to which the host handed something that the run did not
/// wait for.
pub open spec fn unexpected() -> (Stage, Step) {
    finish(failure("Internal error: unexpected event"@))
}

/// How a run begins. The time tools ask for the time, the search asks
/// whether the search program is there, and every other tool asks the disk
/// what it needs to know to decide on its paths.
pub open spec fn first(dirs: Seq<Seq<char>>, call: ToolCall) -> (Stage, Step) {
    match call {
        ToolCall::CurrentTime { .. } => (Stage::Timing, Step::LocalTime),
        ToolCall::GetLocalTime => (Stage::Timing, Step::LocalTime),
        ToolCall::GrepSearch { .. } => (Stage::CheckingGrep, Step::CheckGrep),
        _ => (Stage::Authorizing, Step::Probe { paths: probes_for(dirs, paths_of(call)) }),
    }
}

/// The first action on the disk, once every path of the call is allowed.
pub open spec fn opening(call: ToolCall) -> (Stage, Step) {
    match call {
        ToolCall::FileEdit { file_path, .. } => (Stage::Reading, Step::ReadFile { path: file_path }),
        ToolCall::ReadFile { file_path } => (Stage::Reading, Step::ReadFile { path: file_path }),
        ToolCall::ListDirectory { path } => (Stage::Listing, Step::ReadDir { path }),
        ToolCall::MoveOrRename { source_path, target_path, .. } => (
            Stage::Renaming,
            Step::Rename { from: source_path, to: target_path },
        ),
        ToolCall::GetFileInfo { path } => (Stage::Inspecting, Step::Metadata { path }),
        ToolCall::CreateDirectory { path, .. } => (Stage::Creating, Step::CreateDirAll { path }),
        ToolCall::OverwriteFile { path, content } => (
            Stage::Writing,
            Step::WriteFile { path, content },
        ),
        ToolCall::GrepSearch { path, .. } => (Stage::Stating, Step::Stat { path }),
        _ => unexpected(),
    }
}

/// The message of an edit whose anchor was found `count` times.
pub open spec fn found_message(count: nat) -> Seq<char> {
    "Found "@ + decimal(count) + " matches of content - must match exactly once"@
}

/// The text that tells what the disk knows of a file.
pub open spec fn info_text(info: FileInfo) -> Seq<char> {
    let head = "File size: "@ + decimal(info.size as nat) + "\n"@ + "File type: "@
        + info.file_type@ + "\n"@;
    match info.modified {
        Some(time) => head + "Last modified: "@ + time@ + "\n"@,
        None => head,
    }
}

/// The names of the first `n` entries whose paths are allowed, in order.
pub open spec fn visible_names(
    fs: FsSnapshot,
    dirs: Seq<Seq<char>>,
    entries: Seq<Listed>,
    n: int,
) -> Seq<Seq<char>>
    decreases n,
{
    if n <= 0 || n > entries.len() {
        seq![]
    } else {
        let before = visible_names(fs, dirs, entries, n - 1);
        if decision(fs, dirs, entries[n - 1].path) == PathDecision::Allowed {
            before.push(entries[n - 1].name)
        } else {
            before
        }
    }
}

/// The lines, each but the last followed by a line feed.
pub open spec fn join_lines(lines: Seq<Seq<char>>) -> Seq<char>
    decreases lines.len(),
{
    if lines.len() == 0 {
        seq![]
    } else if lines.len() == 1 {
        lines[0]
    } else {
        join_lines(lines.drop_last()) + "\n"@ + lines.last()
    }
}

/// The listing of a directory: the names of the entries whose own paths are
/// allowed, one to a line.
pub open spec fn listing(fs: FsSnapshot, dirs: Seq<Seq<char>>, entries: Seq<Listed>) -> Seq<char> {
    join_lines(visible_names(fs, dirs, entries, entries.len() as int))
}

/// The path that is committed after the call's change, and the message.
pub open spec fn committed(call: ToolCall) -> Option<(Seq<char>, Seq<char>)> {
    match call {
        ToolCall::FileEdit { file_path, commit_message, .. } => Some((file_path, commit_message)),
        ToolCall::CreateDirectory { path, commit_message } => Some((path, commit_message)),
        ToolCall::MoveOrRename { target_path, commit_message, .. } => Some(
            (target_path, commit_message),
        ),
        _ => None,
    }
}

/// The step that looks for the repository of the path that was changed.
pub open spec fn locate(call: ToolCall, note: Seq<char>) -> (Stage, Step) {
    match committed(call) {
        Some((path, _)) => (
            Stage::LocatingRepo { note },
            Step::Probe { paths: marker_paths(path) },
        ),
        None => unexpected(),
    }
}

/// The arguments of the search program: line numbers always, `-i` unless
/// the search minds the case, `-r` where it goes into directories, then the
/// pattern and the path. Both flags count as set where they are not given.
pub open spec fn grep_arguments(
    pattern: Seq<char>,
    path: Seq<char>,
    recursive: Option<bool>,
    case_sensitive: Option<bool>,
) -> Seq<Seq<char>> {
    let head = seq!["-n"@];
    let with_case = if case_sensitive == Some(false) {
        head.push("-i"@)
    } else {
        head
    };
    let with_depth = if recursive != Some(false) {
        with_case.push("-r"@)
    } else {
        with_case
    };
    with_depth.push(pattern).push(path)
}

/// The paths of the entries.
pub open spec fn entry_paths(entries: Seq<Listed>) -> Seq<Seq<char>> {
    Seq::new(entries.len(), |k: int| entries[k].path)
}

/// What follows the answer to a question for the time.
pub open spec fn after_time(call: ToolCall, event: Event) -> (Stage, Step) {
    match (call, event) {
        (ToolCall::CurrentTime { .. }, Event::Content(time)) => finish(
            success("Now: "@ + time@ + "!"@),
        ),
        (ToolCall::GetLocalTime, Event::Content(time)) => finish(
            success("Local time: "@ + time@),
        ),
        _ => unexpected(),
    }
}

/// What follows the answer to whether the search program is there.
pub open spec fn after_check(dirs: Seq<Seq<char>>, call: ToolCall, event: Event) -> (Stage, Step) {
    match (call, event) {
        (ToolCall::GrepSearch { .. }, Event::Done) => (
            Stage::Authorizing,
            Step::Probe { paths: probes_for(dirs, paths_of(call)) },
        ),
        (ToolCall::GrepSearch { .. }, Event::Failed(_)) => finish(
            failure("grep command not found on system"@),
        ),
        _ => unexpected(),
    }
}

/// What follows what the disk said of the call's paths: the refusal, or the
/// first action on the disk.
pub open spec fn after_probe(dirs: Seq<Seq<char>>, call: ToolCall, event: Event) -> (Stage, Step) {
    match event {
        Event::Probed(fs) => match refusal(fs, dirs, call) {
            Some(message) => finish(failure(message)),
            None => opening(call),
        },
        _ => unexpected(),
    }
}

/// What follows the reading of a file. An edit goes on to write only where
/// the anchor was found exactly once; else it ends, and nothing is written.
pub open spec fn after_read(call: ToolCall, event: Event) -> (Stage, Step) {
    match (call, event) {
        (ToolCall::ReadFile { .. }, Event::Content(content)) => finish(success(content@)),
        (ToolCall::FileEdit { file_path, old_content, new_content, .. }, Event::Content(content)) => {
            if count_matches(content@, old_content) == 1 {
                (
                    Stage::Writing,
                    Step::WriteFile {
                        path: file_path,
                        content: edited(content@, old_content, new_content),
                    },
                )
            } else {
                finish(failure(found_message(clip(count_matches(content@, old_content)) as nat)))
            }
        },
        (ToolCall::ReadFile { .. }, Event::Failed(message)) => finish(
            failure("Error reading file: "@ + message@),
        ),
        (ToolCall::FileEdit { .. }, Event::Failed(message)) => finish(
            failure("Error reading file: "@ + message@),
        ),
        _ => unexpected(),
    }
}

/// What follows the writing of a file.
pub open spec fn after_write(call: ToolCall, event: Event) -> (Stage, Step) {
    match (call, event) {
        (ToolCall::OverwriteFile { path, .. }, Event::Done) => finish(
            success("File written successfully: "@ + path),
        ),
        (ToolCall::OverwriteFile { .. }, Event::Failed(message)) => finish(
            failure("Failed to write file: "@ + message@),
        ),
        (ToolCall::FileEdit { .. }, Event::Done) => locate(call, "File edited successfully"@),
        (ToolCall::FileEdit { .. }, Event::Failed(message)) => finish(
            failure("Error writing file: "@ + message@),
        ),
        _ => unexpected(),
    }
}

/// What follows the making of a directory.
pub open spec fn after_create(call: ToolCall, event: Event) -> (Stage, Step) {
    match (call, event) {
        (ToolCall::CreateDirectory { path, .. }, Event::Done) => locate(
            call,
            "Created directory: "@ + path,
        ),
        (ToolCall::CreateDirectory { .. }, Event::Failed(message)) => finish(
            failure("Failed to create directory: "@ + message@),
        ),
        _ => unexpected(),
    }
}

/// What follows a move.
pub open spec fn after_rename(call: ToolCall, event: Event) -> (Stage, Step) {
    match (call, event) {
        (ToolCall::MoveOrRename { source_path, target_path, .. }, Event::Done) => locate(
            call,
            "Moved or renamed successfully: "@ + source_path + " to "@ + target_path,
        ),
        (ToolCall::MoveOrRename { .. }, Event::Failed(message)) => finish(
            failure("Failed to move or rename: "@ + message@),
        ),
        _ => unexpected(),
    }
}

/// What follows the look at a file's data.
pub open spec fn after_inspect(call: ToolCall, event: Event) -> (Stage, Step) {
    match (call, event) {
        (ToolCall::GetFileInfo { .. }, Event::Info(info)) => finish(success(info_text(info))),
        (ToolCall::GetFileInfo { .. }, Event::Failed(message)) => finish(
            failure("Error getting file info: "@ + message@),
        ),
        _ => unexpected(),
    }
}

/// What follows the reading of a directory: the question to the disk that
/// the decision on each entry needs.
pub open spec fn after_list(dirs: Seq<Seq<char>>, call: ToolCall, event: Event) -> (Stage, Step) {
    match (call, event) {
        (ToolCall::ListDirectory { .. }, Event::Entries(entries)) => (
            Stage::Filtering { entries: listed(entries@) },
            Step::Probe { paths: probes_for(dirs, entry_paths(listed(entries@))) },
        ),
        (ToolCall::ListDirectory { .. }, Event::Failed(message)) => finish(
            failure("Error listing directory: "@ + message@),
        ),
        _ => unexpected(),
    }
}

/// What follows what the disk said of the entries: the listing.
pub open spec fn after_filter(dirs: Seq<Seq<char>>, entries: Seq<Listed>, event: Event) -> (
    Stage,
    Step,
) {
    match event {
        Event::Probed(fs) => finish(success(listing(fs, dirs, entries))),
        _ => unexpected(),
    }
}

/// The path as the repository at `repo` knows it: what is left of it behind
/// the repository's directory.
pub open spec fn relative_to(repo: Seq<char>, path: Seq<char>) -> Seq<char> {
    match strip_prefix(path, repo) {
        Some(rest) => rest,
        None => path,
    }
}

/// What follows the search for a repository: the commit where there is
/// one, else the end.
pub open spec fn after_locate(call: ToolCall, note: Seq<char>, event: Event) -> (Stage, Step) {
    match (committed(call), event) {
        (Some((path, message)), Event::Probed(fs)) => match git_repo(fs, path) {
            Some(repo) => (
                Stage::Committing { note },
                Step::Commit { repo, path, relative: relative_to(repo, path), message },
            ),
            None => finish(success(note)),
        },
        _ => unexpected(),
    }
}

/// What follows the commit. A commit that failed does not make the call
/// fail: the result reports success and says what went wrong.
pub open spec fn after_commit(note: Seq<char>, event: Event) -> (Stage, Step) {
    match event {
        Event::Done => finish(success(note + ". Changes committed to git"@)),
        Event::Failed(message) => finish(success(note + ". Git commit failed: "@ + message@)),
        _ => unexpected(),
    }
}

/// What follows the look at the path of a search.
pub open spec fn after_stat(call: ToolCall, event: Event) -> (Stage, Step) {
    match (call, event) {
        (
            ToolCall::GrepSearch { pattern, path, recursive, case_sensitive },
            Event::Kind { is_dir, present },
        ) => {
            if recursive != Some(false) && !is_dir {
                finish(failure("Path must be a directory for recursive search"@))
            } else if recursive == Some(false) && !present {
                finish(failure("Path does not exist"@))
            } else {
                (
                    Stage::Searching,
                    Step::RunGrep {
                        arguments: grep_arguments(pattern, path, recursive, case_sensitive),
                    },
                )
            }
        },
        _ => unexpected(),
    }
}

/// What follows the search.
pub open spec fn after_search(call: ToolCall, event: Event) -> (Stage, Step) {
    match (call, event) {
        (ToolCall::GrepSearch { .. }, Event::Output { success: true, stdout, .. }) => finish(
            success(stdout@),
        ),
        (ToolCall::GrepSearch { .. }, Event::Output { success: false, stderr, .. }) => finish(
            failure("Grep error: "@ + stderr@),
        ),
        (ToolCall::GrepSearch { .. }, Event::Failed(message)) => finish(
            failure("Failed to execute grep: "@ + message@),
        ),
        _ => unexpected(),
    }
}

/// The next stage and step of a run at `stage` to which the host hands
/// `event`.
pub open spec fn next(dirs: Seq<Seq<char>>, call: ToolCall, stage: Stage, event: Event) -> (
    Stage,
    Step,
) {
    match stage {
        Stage::Timing => after_time(call, event),
        Stage::CheckingGrep => after_check(dirs, call, event),
        Stage::Authorizing => after_probe(dirs, call, event),
        Stage::Reading => after_read(call, event),
        Stage::Writing => after_write(call, event),
        Stage::Creating => after_create(call, event),
        Stage::Renaming => after_rename(call, event),
        Stage::Inspecting => after_inspect(call, event),
        Stage::Listing => after_list(dirs, call, event),
        Stage::Filtering { entries } => after_filter(dirs, entries, event),
        Stage::LocatingRepo { note } => after_locate(call, note, event),
        Stage::Committing { note } => after_commit(note, event),
        Stage::Stating => after_stat(call, event),
        Stage::Searching => after_search(call, event),
        Stage::Finished => unexpected(),
    }
}

fn done(result: CallToolResult) -> (r: (Phase, Action))
    ensures
        (r.0@, r.1@) == finish(result@),
{
    (Phase::Finished, Action::Finish(result))
}

fn succeed(text: String) -> (r: (Phase, Action))
    ensures
        (r.0@, r.1@) == finish(success(text@)),
{
    done(CallToolResult::ok(text))
}

fn fail(text: String) -> (r: (Phase, Action))
    ensures
        (r.0@, r.1@) == finish(failure(text@)),
{
    done(CallToolResult::error(text))
}

fn surprise() -> (r: (Phase, Action))
    ensures
        (r.0@, r.1@) == unexpected(),
{
    fail("Internal error: unexpected event".to_owned())
}

/// The paths that the call names.
pub fn request_paths(request: &ToolRequest) -> (r: Vec<String>)
    ensures
        views(r@) == paths_of(request@),
{
    let mut r: Vec<String> = Vec::new();
    match request {
        ToolRequest::CurrentTime(_) => {},
        ToolRequest::GetLocalTime(_) => {},
        ToolRequest::FileEdit(q) => {
            r.push(q.file_path.clone());
        },
        ToolRequest::ReadFile(q) => {
            r.push(q.file_path.clone());
        },
        ToolRequest::ListDirectory(q) => {
            r.push(q.path.clone());
        },
        ToolRequest::MoveOrRename(q) => {
            r.push(q.source_path.clone());
            r.push(q.target_path.clone());
        },
        ToolRequest::GetFileInfo(q) => {
            r.push(q.path.clone());
        },
        ToolRequest::CreateDirectory(q) => {
            r.push(q.path.clone());
        },
        ToolRequest::OverwriteFile(q) => {
            r.push(q.path.clone());
        },
        ToolRequest::GrepSearch(q) => {
            r.push(q.path.clone());
        },
    }
    assert(views(r@) =~= paths_of(request@));
    r
}

/// The paths to ask the disk about before the decision on each of `paths`.
pub fn probes_of(paths: &Vec<String>, allowed_dirs: &Vec<String>) -> (r: Vec<String>)
    ensures
        views(r@) == probes_for(views(allowed_dirs@), views(paths@)),
{
    let mut r: Vec<String> = Vec::new();
    let mut k: usize = 0;
    assert(views(paths@).take(0) =~= Seq::<Seq<char>>::empty());
    while k < paths.len()
        invariant
            k <= paths.len(),
            views(r@) == probes_for(views(allowed_dirs@), views(paths@).take(k as int)),
        decreases paths.len() - k,
    {
        let mut more = probe_paths(paths[k].as_str(), allowed_dirs);
        let ghost before = views(r@);
        let ghost added = views(more@);
        r.append(&mut more);
        assert(views(r@) =~= before + added);
        assert(views(paths@).take(k + 1).drop_last() =~= views(paths@).take(k as int));
        assert(views(paths@).take(k + 1).last() == paths@[k as int]@);
        k += 1;
    }
    assert(views(paths@).take(k as int) =~= views(paths@));
    r
}

fn call_probe(request: &ToolRequest, allowed_dirs: &Vec<String>) -> (r: (Phase, Action))
    ensures
        r.0@ == Stage::Authorizing,
        r.1@ == (Step::Probe { paths: probes_for(views(allowed_dirs@), paths_of(request@)) }),
{
    let paths = request_paths(request);
    (Phase::Authorizing, Action::Probe { paths: probes_of(&paths, allowed_dirs) })
}

fn begin(request: &ToolRequest, allowed_dirs: &Vec<String>) -> (r: (Phase, Action))
    ensures
        (r.0@, r.1@) == first(views(allowed_dirs@), request@),
{
    match request {
        ToolRequest::CurrentTime(_) => (Phase::Timing, Action::LocalTime),
        ToolRequest::GetLocalTime(_) => (Phase::Timing, Action::LocalTime),
        ToolRequest::GrepSearch(_) => (Phase::CheckingGrep, Action::CheckGrep),
        _ => call_probe(request, allowed_dirs),
    }
}

fn on_time(request: &ToolRequest, event: Event) -> (r: (Phase, Action))
    ensures
        (r.0@, r.1@) == after_time(request@, event),
{
    match (request, event) {
        (ToolRequest::CurrentTime(_), Event::Content(time)) => {
            let head = appended("Now: ", time.as_str());
            succeed(appended(head.as_str(), "!"))
        },
        (ToolRequest::GetLocalTime(_), Event::Content(time)) => succeed(
            appended("Local time: ", time.as_str()),
        ),
        _ => surprise(),
    }
}

fn on_check(request: &ToolRequest, allowed_dirs: &Vec<String>, event: Event) -> (r: (
    Phase,
    Action,
))
    ensures
        (r.0@, r.1@) == after_check(views(allowed_dirs@), request@, event),
{
    match (request, event) {
        (ToolRequest::GrepSearch(_), Event::Done) => call_probe(request, allowed_dirs),
        (ToolRequest::GrepSearch(_), Event::Failed(_)) => fail(
            "grep command not found on system".to_owned(),
        ),
        _ => surprise(),
    }
}

fn open_call(request: &ToolRequest) -> (r: (Phase, Action))
    ensures
        (r.0@, r.1@) == opening(request@),
{
    match request {
        ToolRequest::FileEdit(q) => (Phase::Reading, Action::ReadFile { path: q.file_path.clone() }),
        ToolRequest::ReadFile(q) => (Phase::Reading, Action::ReadFile { path: q.file_path.clone() }),
        ToolRequest::ListDirectory(q) => (Phase::Listing, Action::ReadDir { path: q.path.clone() }),
        ToolRequest::MoveOrRename(q) => (
            Phase::Renaming,
            Action::Rename { from: q.source_path.clone(), to: q.target_path.clone() },
        ),
        ToolRequest::GetFileInfo(q) => (Phase::Inspecting, Action::Metadata { path: q.path.clone() }),
        ToolRequest::CreateDirectory(q) => (
            Phase::Creating,
            Action::CreateDirAll { path: q.path.clone() },
        ),
        ToolRequest::OverwriteFile(q) => (
            Phase::Writing,
            Action::WriteFile { path: q.path.clone(), content: q.content.clone() },
        ),
        ToolRequest::GrepSearch(q) => (Phase::Stating, Action::Stat { path: q.path.clone() }),
        _ => surprise(),
    }
}

/// The message for the first refused path of the call, if one is refused.
fn refuse(request: &ToolRequest, allowed_dirs: &Vec<String>, fs: &FsSnapshot) -> (r: Option<
    String,
>)
    ensures
        crate::text::option_view(r) == refusal(*fs, views(allowed_dirs@), request@),
{
    let checked = match request {
        ToolRequest::CurrentTime(_) => Ok(()),
        ToolRequest::GetLocalTime(_) => Ok(()),
        ToolRequest::FileEdit(q) => validate_path_or_error(q.file_path.as_str(), allowed_dirs, fs),
        ToolRequest::ReadFile(q) => validate_path_or_error(q.file_path.as_str(), allowed_dirs, fs),
        ToolRequest::ListDirectory(q) => validate_path_or_error(q.path.as_str(), allowed_dirs, fs),
        ToolRequest::MoveOrRename(q) => validate_paths_or_error(
            q.source_path.as_str(),
            q.target_path.as_str(),
            allowed_dirs,
            fs,
        ),
        ToolRequest::GetFileInfo(q) => validate_path_or_error(q.path.as_str(), allowed_dirs, fs),
        ToolRequest::CreateDirectory(q) => validate_path_or_error(
            q.path.as_str(),
            allowed_dirs,
            fs,
        ),
        ToolRequest::OverwriteFile(q) => validate_path_or_error(q.path.as_str(), allowed_dirs, fs),
        ToolRequest::GrepSearch(q) => validate_path_or_error(q.path.as_str(), allowed_dirs, fs),
    };
    match checked {
        Ok(_) => None,
        Err(message) => Some(message),
    }
}

fn on_probe(request: &ToolRequest, allowed_dirs: &Vec<String>, event: Event) -> (r: (
    Phase,
    Action,
))
    ensures
        (r.0@, r.1@) == after_probe(views(allowed_dirs@), request@, event),
{
    match event {
        Event::Probed(fs) => match refuse(request, allowed_dirs, &fs) {
            Some(message) => fail(message),
            None => open_call(request),
        },
        _ => surprise(),
    }
}

fn found_text(count: usize) -> (r: String)
    ensures
        r@ == found_message(count as nat),
{
    let number = to_decimal(count as u64);
    let head = appended("Found ", number.as_str());
    appended(head.as_str(), " matches of content - must match exactly once")
}

fn on_read(request: &ToolRequest, event: Event) -> (r: (Phase, Action))
    ensures
        (r.0@, r.1@) == after_read(request@, event),
{
    match (request, event) {
        (ToolRequest::ReadFile(_), Event::Content(content)) => succeed(content),
        (ToolRequest::FileEdit(q), Event::Content(content)) => {
            match apply_edit(content.as_str(), q.old_content.as_str(), q.new_content.as_str()) {
                Ok(new_text) => (
                    Phase::Writing,
                    Action::WriteFile { path: q.file_path.clone(), content: new_text },
                ),
                Err(e) => fail(found_text(e.count)),
            }
        },
        (ToolRequest::ReadFile(_), Event::Failed(message)) => fail(
            appended("Error reading file: ", message.as_str()),
        ),
        (ToolRequest::FileEdit(_), Event::Failed(message)) => fail(
            appended("Error reading file: ", message.as_str()),
        ),
        _ => surprise(),
    }
}

fn locate_repo(request: &ToolRequest, note: String) -> (r: (Phase, Action))
    ensures
        (r.0@, r.1@) == locate(request@, note@),
{
    match request {
        ToolRequest::FileEdit(q) => (
            Phase::LocatingRepo { note },
            Action::Probe { paths: repo_marker_paths(q.file_path.as_str()) },
        ),
        ToolRequest::CreateDirectory(q) => (
            Phase::LocatingRepo { note },
            Action::Probe { paths: repo_marker_paths(q.path.as_str()) },
        ),
        ToolRequest::MoveOrRename(q) => (
            Phase::LocatingRepo { note },
            Action::Probe { paths: repo_marker_paths(q.target_path.as_str()) },
        ),
        _ => surprise(),
    }
}

fn on_write(request: &ToolRequest, event: Event) -> (r: (Phase, Action))
    ensures
        (r.0@, r.1@) == after_write(request@, event),
{
    match (request, event) {
        (ToolRequest::OverwriteFile(q), Event::Done) => succeed(
            appended("File written successfully: ", q.path.as_str()),
        ),
        (ToolRequest::OverwriteFile(_), Event::Failed(message)) => fail(
            appended("Failed to write file: ", message.as_str()),
        ),
        (ToolRequest::FileEdit(_), Event::Done) => locate_repo(
            request,
            "File edited successfully".to_owned(),
        ),
        (ToolRequest::FileEdit(_), Event::Failed(message)) => fail(
            appended("Error writing file: ", message.as_str()),
        ),
        _ => surprise(),
    }
}

fn on_create(request: &ToolRequest, event: Event) -> (r: (Phase, Action))
    ensures
        (r.0@, r.1@) == after_create(request@, event),
{
    match (request, event) {
        (ToolRequest::CreateDirectory(q), Event::Done) => locate_repo(
            request,
            appended("Created directory: ", q.path.as_str()),
        ),
        (ToolRequest::CreateDirectory(_), Event::Failed(message)) => fail(
            appended("Failed to create directory: ", message.as_str()),
        ),
        _ => surprise(),
    }
}

fn on_rename(request: &ToolRequest, event: Event) -> (r: (Phase, Action))
    ensures
        (r.0@, r.1@) == after_rename(request@, event),
{
    match (request, event) {
        (ToolRequest::MoveOrRename(q), Event::Done) => {
            let a = appended("Moved or renamed successfully: ", q.source_path.as_str());
            let b = appended(a.as_str(), " to ");
            locate_repo(request, appended(b.as_str(), q.target_path.as_str()))
        },
        (ToolRequest::MoveOrRename(_), Event::Failed(message)) => fail(
            appended("Failed to move or rename: ", message.as_str()),
        ),
        _ => surprise(),
    }
}

fn info_lines(info: &FileInfo) -> (r: String)
    ensures
        r@ == info_text(*info),
{
    let size = to_decimal(info.size);
    let a = appended("File size: ", size.as_str());
    let b = appended(a.as_str(), "\n");
    let c = appended(b.as_str(), "File type: ");
    let d = appended(c.as_str(), info.file_type.as_str());
    let head = appended(d.as_str(), "\n");
    match &info.modified {
        Some(time) => {
            let e = appended(head.as_str(), "Last modified: ");
            let g = appended(e.as_str(), time.as_str());
            appended(g.as_str(), "\n")
        },
        None => head,
    }
}

fn on_inspect(request: &ToolRequest, event: Event) -> (r: (Phase, Action))
    ensures
        (r.0@, r.1@) == after_inspect(request@, event),
{
    match (request, event) {
        (ToolRequest::GetFileInfo(_), Event::Info(info)) => succeed(info_lines(&info)),
        (ToolRequest::GetFileInfo(_), Event::Failed(message)) => fail(
            appended("Error getting file info: ", message.as_str()),
        ),
        _ => surprise(),
    }
}

fn on_commit(note: &String, event: Event) -> (r: (Phase, Action))
    ensures
        (r.0@, r.1@) == after_commit(note@, event),
{
    match event {
        Event::Done => succeed(appended(note.as_str(), ". Changes committed to git")),
        Event::Failed(message) => {
            let head = appended(note.as_str(), ". Git commit failed: ");
            succeed(appended(head.as_str(), message.as_str()))
        },
        _ => surprise(),
    }
}

fn on_locate(request: &ToolRequest, note: &String, event: Event) -> (r: (Phase, Action))
    ensures
        (r.0@, r.1@) == after_locate(request@, note@, event),
{
    let (path, message) = match request {
        ToolRequest::FileEdit(q) => (&q.file_path, &q.commit_message),
        ToolRequest::CreateDirectory(q) => (&q.path, &q.commit_message),
        ToolRequest::MoveOrRename(q) => (&q.target_path, &q.commit_message),
        _ => {
            return surprise();
        },
    };
    match event {
        Event::Probed(fs) => match find_git_repo(path.as_str(), &fs) {
            Some(repo) => {
                let relative = match path_strip_prefix(path.as_str(), repo.as_str()) {
                    Some(rest) => rest,
                    None => path.clone(),
                };
                (
                    Phase::Committing { note: note.clone() },
                    Action::Commit { repo, path: path.clone(), relative, message: message.clone() },
                )
            },
            None => succeed(note.clone()),
        },
        _ => surprise(),
    }
}

fn on_list(request: &ToolRequest, allowed_dirs: &Vec<String>, event: Event) -> (r: (
    Phase,
    Action,
))
    ensures
        (r.0@, r.1@) == after_list(views(allowed_dirs@), request@, event),
{
    match (request, event) {
        (ToolRequest::ListDirectory(_), Event::Entries(entries)) => {
            let mut paths: Vec<String> = Vec::new();
            let mut k: usize = 0;
            while k < entries.len()
                invariant
                    k <= entries.len(),
                    views(paths@) == entry_paths(listed(entries@)).take(k as int),
                decreases entries.len() - k,
            {
                let ghost before = views(paths@);
                paths.push(entries[k].path.clone());
                assert(views(paths@) =~= before + seq![entries@[k as int].path@]);
                assert(entry_paths(listed(entries@)).take(k + 1) =~= entry_paths(
                    listed(entries@),
                ).take(k as int) + seq![entries@[k as int].path@]);
                k += 1;
            }
            assert(entry_paths(listed(entries@)).take(k as int) =~= entry_paths(
                listed(entries@),
            ));
            let probes = probes_of(&paths, allowed_dirs);
            (Phase::Filtering { entries }, Action::Probe { paths: probes })
        },
        (ToolRequest::ListDirectory(_), Event::Failed(message)) => fail(
            appended("Error listing directory: ", message.as_str()),
        ),
        _ => surprise(),
    }
}

fn lines_text(lines: &Vec<String>) -> (r: String)
    ensures
        r@ == join_lines(views(lines@)),
{
    if lines.len() == 0 {
        return String::new();
    }
    let mut out: String = lines[0].clone();
    assert(views(lines@).take(1) =~= seq![lines@[0]@]);
    let mut k: usize = 1;
    while k < lines.len()
        invariant
            1 <= k <= lines.len(),
            out@ == join_lines(views(lines@).take(k as int)),
        decreases lines.len() - k,
    {
        let head = appended(out.as_str(), "\n");
        out = appended(head.as_str(), lines[k].as_str());
        assert(views(lines@).take(k + 1).drop_last() =~= views(lines@).take(k as int));
        assert(views(lines@).take(k + 1).last() == lines@[k as int]@);
        k += 1;
    }
    assert(views(lines@).take(k as int) =~= views(lines@));
    out
}

fn on_filter(entries: &Vec<DirEntry>, allowed_dirs: &Vec<String>, event: Event) -> (r: (
    Phase,
    Action,
))
    ensures
        (r.0@, r.1@) == after_filter(views(allowed_dirs@), listed(entries@), event),
{
    match event {
        Event::Probed(fs) => {
            let mut names: Vec<String> = Vec::new();
            let mut k: usize = 0;
            while k < entries.len()
                invariant
                    k <= entries.len(),
                    views(names@) == visible_names(
                        fs,
                        views(allowed_dirs@),
                        listed(entries@),
                        k as int,
                    ),
                decreases entries.len() - k,
            {
                let ghost before = views(names@);
                match authorize(entries[k].path.as_str(), allowed_dirs, &fs) {
                    PathDecision::Allowed => {
                        names.push(entries[k].name.clone());
                        assert(views(names@) =~= before.push(entries@[k as int].name@));
                    },
                    PathDecision::Denied(_) => {},
                }
                k += 1;
            }
            succeed(lines_text(&names))
        },
        _ => surprise(),
    }
}

/// The arguments of the search program for a search.
fn arguments_of(
    pattern: &String,
    path: &String,
    recursive: Option<bool>,
    case_sensitive: Option<bool>,
) -> (r: Vec<String>)
    ensures
        views(r@) == grep_arguments(pattern@, path@, recursive, case_sensitive),
{
    let mut r: Vec<String> = Vec::new();
    r.push("-n".to_owned());
    match case_sensitive {
        Some(false) => {
            r.push("-i".to_owned());
        },
        _ => {},
    }
    match recursive {
        Some(false) => {},
        _ => {
            r.push("-r".to_owned());
        },
    }
    r.push(pattern.clone());
    r.push(path.clone());
    assert(views(r@) =~= grep_arguments(pattern@, path@, recursive, case_sensitive));
    r
}

fn on_stat(request: &ToolRequest, event: Event) -> (r: (Phase, Action))
    ensures
        (r.0@, r.1@) == after_stat(request@, event),
{
    match (request, event) {
        (ToolRequest::GrepSearch(q), Event::Kind { is_dir, present }) => {
            let recursive = match q.recursive {
                Some(false) => false,
                _ => true,
            };
            if recursive && !is_dir {
                fail("Path must be a directory for recursive search".to_owned())
            } else if !recursive && !present {
                fail("Path does not exist".to_owned())
            } else {
                (
                    Phase::Searching,
                    Action::RunGrep {
                        arguments: arguments_of(&q.pattern, &q.path, q.recursive, q.case_sensitive),
                    },
                )
            }
        },
        _ => surprise(),
    }
}

fn on_search(request: &ToolRequest, event: Event) -> (r: (Phase, Action))
    ensures
        (r.0@, r.1@) == after_search(request@, event),
{
    match (request, event) {
        (ToolRequest::GrepSearch(_), Event::Output { success, stdout, stderr }) => {
            if success {
                succeed(stdout)
            } else {
                fail(appended("Grep error: ", stderr.as_str()))
            }
        },
        (ToolRequest::GrepSearch(_), Event::Failed(message)) => fail(
            appended("Failed to execute grep: ", message.as_str()),
        ),
        _ => surprise(),
    }
}

/// One tool call in progress.
#[derive(Debug)]
pub struct ToolRun {
    pub request: ToolRequest,
    pub allowed_dirs: Vec<String>,
    pub phase: Phase,
}

impl ToolRun {
    /// Begin a call, with the directories that are allowed for it. The run
    /// comes with its first action.
    pub fn start(request: ToolRequest, allowed_dirs: Vec<String>) -> (r: (ToolRun, Action))
        ensures
            r.0.request == request,
            r.0.allowed_dirs == allowed_dirs,
            (r.0.phase@, r.1@) == first(views(allowed_dirs@), request@),
    {
        let (phase, action) = begin(&request, &allowed_dirs);
        (ToolRun { request, allowed_dirs, phase }, action)
    }

    /// Take what the host hands back, and answer with the next action. The
    /// call and its directories stay as they are.
    pub fn step(self, event: Event) -> (r: (ToolRun, Action))
        ensures
            r.0.request == self.request,
            r.0.allowed_dirs == self.allowed_dirs,
            (r.0.phase@, r.1@) == next(
                views(self.allowed_dirs@),
                self.request@,
                self.phase@,
                event,
            ),
    {
        let ToolRun { request, allowed_dirs, phase } = self;
        let (phase, action) = match phase {
            Phase::Timing => on_time(&request, event),
            Phase::CheckingGrep => on_check(&request, &allowed_dirs, event),
            Phase::Authorizing => on_probe(&request, &allowed_dirs, event),
            Phase::Reading => on_read(&request, event),
            Phase::Writing => on_write(&request, event),
            Phase::Creating => on_create(&request, event),
            Phase::Renaming => on_rename(&request, event),
            Phase::Inspecting => on_inspect(&request, event),
            Phase::Listing => on_list(&request, &allowed_dirs, event),
            Phase::Filtering { entries } => on_filter(&entries, &allowed_dirs, event),
            Phase::LocatingRepo { note } => on_locate(&request, &note, event),
            Phase::Committing { note } => on_commit(&note, event),
            Phase::Stating => on_stat(&request, event),
            Phase::Searching => on_search(&request, event),
            Phase::Finished => surprise(),
        };
        (ToolRun { request, allowed_dirs, phase }, action)
    }

    /// Whether the run has handed out its result.
    pub fn is_finished(&self) -> (r: bool)
        ensures
            r == (self.phase@ is Finished),
    {
        match self.phase {
            Phase::Finished => true,
            _ => false,
        }
    }
}

/// The time, framed for a city. The call begins here: the run comes with its first action.
pub fn current_time(request: CurrentTimeRequest, allowed_dirs: Vec<String>) -> (r: (ToolRun, Action))
    ensures
        r.0.request == ToolRequest::CurrentTime(request),
        r.0.allowed_dirs == allowed_dirs,
        (r.0.phase@, r.1@) == first(views(allowed_dirs@), ToolRequest::CurrentTime(request)@),
{
    ToolRun::start(ToolRequest::CurrentTime(request), allowed_dirs)
}

/// The local time. The call begins here: the run comes with its first action.
pub fn get_local_time(request: GetLocalTimeRequest, allowed_dirs: Vec<String>) -> (r: (ToolRun, Action))
    ensures
        r.0.request == ToolRequest::GetLocalTime(request),
        r.0.allowed_dirs == allowed_dirs,
        (r.0.phase@, r.1@) == first(views(allowed_dirs@), ToolRequest::GetLocalTime(request)@),
{
    ToolRun::start(ToolRequest::GetLocalTime(request), allowed_dirs)
}

/// Replace the one occurrence of a text in a file, and commit the change where
/// the file lies in a repository. The call begins here: the run comes with its first action.
pub fn file_edit(request: FileEditRequest, allowed_dirs: Vec<String>) -> (r: (ToolRun, Action))
    ensures
        r.0.request == ToolRequest::FileEdit(request),
        r.0.allowed_dirs == allowed_dirs,
        (r.0.phase@, r.1@) == first(views(allowed_dirs@), ToolRequest::FileEdit(request)@),
{
    ToolRun::start(ToolRequest::FileEdit(request), allowed_dirs)
}

/// Make a directory with the directories above it, and commit it where it
/// lies in a repository. The call begins here: the run comes with its first action.
pub fn create_directory(request: CreateDirectoryRequest, allowed_dirs: Vec<String>) -> (r: (ToolRun, Action))
    ensures
        r.0.request == ToolRequest::CreateDirectory(request),
        r.0.allowed_dirs == allowed_dirs,
        (r.0.phase@, r.1@) == first(views(allowed_dirs@), ToolRequest::CreateDirectory(request)@),
{
    ToolRun::start(ToolRequest::CreateDirectory(request), allowed_dirs)
}

/// Write a file, whatever it held. The call begins here: the run comes with its first action.
pub fn overwrite_file(request: OverwriteFileRequest, allowed_dirs: Vec<String>) -> (r: (ToolRun, Action))
    ensures
        r.0.request == ToolRequest::OverwriteFile(request),
        r.0.allowed_dirs == allowed_dirs,
        (r.0.phase@, r.1@) == first(views(allowed_dirs@), ToolRequest::OverwriteFile(request)@),
{
    ToolRun::start(ToolRequest::OverwriteFile(request), allowed_dirs)
}

/// Read a file. The call begins here: the run comes with its first action.
pub fn read_file(request: ReadFileRequest, allowed_dirs: Vec<String>) -> (r: (ToolRun, Action))
    ensures
        r.0.request == ToolRequest::ReadFile(request),
        r.0.allowed_dirs == allowed_dirs,
        (r.0.phase@, r.1@) == first(views(allowed_dirs@), ToolRequest::ReadFile(request)@),
{
    ToolRun::start(ToolRequest::ReadFile(request), allowed_dirs)
}

/// List the entries of a directory whose own paths are allowed. The call begins here: the run comes with its first action.
pub fn list_directory(request: ListDirectoryRequest, allowed_dirs: Vec<String>) -> (r: (ToolRun, Action))
    ensures
        r.0.request == ToolRequest::ListDirectory(request),
        r.0.allowed_dirs == allowed_dirs,
        (r.0.phase@, r.1@) == first(views(allowed_dirs@), ToolRequest::ListDirectory(request)@),
{
    ToolRun::start(ToolRequest::ListDirectory(request), allowed_dirs)
}

/// Move a file or a directory; both paths must be allowed. The call begins here: the run comes with its first action.
pub fn move_or_rename(request: MoveOrRenameRequest, allowed_dirs: Vec<String>) -> (r: (ToolRun, Action))
    ensures
        r.0.request == ToolRequest::MoveOrRename(request),
        r.0.allowed_dirs == allowed_dirs,
        (r.0.phase@, r.1@) == first(views(allowed_dirs@), ToolRequest::MoveOrRename(request)@),
{
    ToolRun::start(ToolRequest::MoveOrRename(request), allowed_dirs)
}

/// Tell the size, the kind and the time of the last change of a file. The call begins here: the run comes with its first action.
pub fn get_file_info(request: GetFileInfoRequest, allowed_dirs: Vec<String>) -> (r: (ToolRun, Action))
    ensures
        r.0.request == ToolRequest::GetFileInfo(request),
        r.0.allowed_dirs == allowed_dirs,
        (r.0.phase@, r.1@) == first(views(allowed_dirs@), ToolRequest::GetFileInfo(request)@),
{
    ToolRun::start(ToolRequest::GetFileInfo(request), allowed_dirs)
}

/// Search files for a pattern with the search program. The call begins here: the run comes with its first action.
pub fn grep_search(request: GrepSearchRequest, allowed_dirs: Vec<String>) -> (r: (ToolRun, Action))
    ensures
        r.0.request == ToolRequest::GrepSearch(request),
        r.0.allowed_dirs == allowed_dirs,
        (r.0.phase@, r.1@) == first(views(allowed_dirs@), ToolRequest::GrepSearch(request)@),
{
    ToolRun::start(ToolRequest::GrepSearch(request), allowed_dirs)
}

/// Take a call as it came in: a method name and its parameters. A call
/// that is refused over its name or its parameters begins no run, and so
/// asks nothing of the disk; any other begins the run of its tool.
pub fn begin_call(method: &str, params: &Params, allowed_dirs: Vec<String>) -> (r: Result<
    (ToolRun, Action),
    DispatchError,
>)
    ensures
        match r {
            Ok((run, action)) => dispatched(method@, *params) == Ok::<ToolCall, DispatchFault>(
                run.request@,
            ) && run.allowed_dirs == allowed_dirs && (run.phase@, action@) == first(
                views(allowed_dirs@),
                run.request@,
            ),
            Err(e) => dispatched(method@, *params) == Err::<ToolCall, DispatchFault>(e@),
        },
{
    match dispatch(method, params) {
        Ok(request) => Ok(ToolRun::start(request, allowed_dirs)),
        Err(e) => Err(e),
    }
}

/// An action that reads or changes a file or a directory, or that hands a
/// path to another program. Asking the disk whether paths exist is none.
pub open spec fn touches_files(step: Step) -> bool {
    step is ReadFile || step is WriteFile || step is CreateDirAll || step is Rename
        || step is Metadata || step is ReadDir || step is Commit || step is Stat
        || step is RunGrep
}

/// A stage in which an action on files is under way or behind the run.
pub open spec fn cleared(stage: Stage) -> bool {
    stage is Reading || stage is Writing || stage is Creating || stage is Renaming
        || stage is Inspecting || stage is Listing || stage is Filtering
        || stage is LocatingRepo || stage is Committing || stage is Stating
        || stage is Searching
}

/// Whether `event` is an answer of the disk under which every path of the
/// call is allowed.
pub open spec fn clears(event: Event, dirs: Seq<Seq<char>>, call: ToolCall) -> bool {
    match event {
        Event::Probed(fs) => all_allowed(fs, dirs, paths_of(call)),
        _ => false,
    }
}

/// Where a run stands, and what it asked for last, after the host has
/// handed it `events` one by one.
pub open spec fn state_after(dirs: Seq<Seq<char>>, call: ToolCall, events: Seq<Event>) -> (
    Stage,
    Step,
)
    decreases events.len(),
{
    if events.len() == 0 {
        first(dirs, call)
    } else {
        next(dirs, call, state_after(dirs, call, events.drop_last()).0, events.last())
    }
}

/// No path of the call is refused exactly where every path is allowed.
pub proof fn lemma_refusal_none(fs: FsSnapshot, dirs: Seq<Seq<char>>, call: ToolCall)
    ensures
        refusal(fs, dirs, call) is None <==> all_allowed(fs, dirs, paths_of(call)),
{
    let paths = paths_of(call);
    if refusal(fs, dirs, call) is None {
        assert forall|k: int| 0 <= k < paths.len() implies decision(fs, dirs, #[trigger] paths[k])
            == PathDecision::Allowed by {}
    } else {
        if call is MoveOrRename {
            assert(decision(fs, dirs, paths[0]) != PathDecision::Allowed || decision(
                fs,
                dirs,
                paths[1],
            ) != PathDecision::Allowed);
        } else {
            assert(decision(fs, dirs, paths[0]) != PathDecision::Allowed);
        }
    }
}

/// One step of a run hands out an action on files only into a cleared
/// stage, and a run enters a cleared stage only on an answer of the disk
/// under which every path of the call is allowed.
pub proof fn lemma_step_clearance(
    dirs: Seq<Seq<char>>,
    call: ToolCall,
    stage: Stage,
    event: Event,
)
    ensures
        touches_files(next(dirs, call, stage, event).1) ==> cleared(
            next(dirs, call, stage, event).0,
        ),
        cleared(next(dirs, call, stage, event).0) ==> cleared(stage) || (stage is Authorizing
            && clears(event, dirs, call)),
{
    if stage is Authorizing {
        match event {
            Event::Probed(fs) => {
                lemma_refusal_none(fs, dirs, call);
            },
            _ => {},
        }
    }
}

/// Through a whole run, no action on files is handed out before the disk
/// has answered in a way under which every path of the call is allowed.
pub proof fn lemma_files_untouched_until_allowed(
    dirs: Seq<Seq<char>>,
    call: ToolCall,
    events: Seq<Event>,
)
    ensures
        touches_files(state_after(dirs, call, events).1) || cleared(
            state_after(dirs, call, events).0,
        ) ==> exists|k: int| 0 <= k < events.len() && clears(#[trigger] events[k], dirs, call),
    decreases events.len(),
{
    if events.len() > 0 {
        let before = events.drop_last();
        let stage = state_after(dirs, call, before).0;
        lemma_files_untouched_until_allowed(dirs, call, before);
        lemma_step_clearance(dirs, call, stage, events.last());
        if cleared(state_after(dirs, call, events).0) {
            if cleared(stage) {
                let k = choose|k: int| 0 <= k < before.len() && clears(#[trigger] before[k], dirs, call);
                assert(events[k] == before[k]);
            } else {
                assert(clears(events[events.len() - 1], dirs, call));
            }
        }
    }
}

/// A call of which a path is refused ends at once with a result that is
/// flagged as an error and holds the refusal; nothing is read or written.
pub proof fn lemma_refused_call_ends(fs: FsSnapshot, dirs: Seq<Seq<char>>, call: ToolCall)
    requires
        refusal(fs, dirs, call) is Some,
    ensures
        after_probe(dirs, call, Event::Probed(fs)) == finish(
            failure(refusal(fs, dirs, call)->0),
        ),
{
}

/// An edit whose anchor is not found exactly once ends with an error and
/// writes nothing; found once, the one write holds the edited text.
pub proof fn lemma_edit_writes_once_or_never(call: ToolCall, content: String)
    requires
        call is FileEdit,
    ensures
        count_matches(content@, call->old_content) != 1 ==> after_read(
            call,
            Event::Content(content),
        ).1 is Finish && (after_read(call, Event::Content(content)).1->Finish_0).is_error,
        count_matches(content@, call->old_content) == 1 ==> after_read(
            call,
            Event::Content(content),
        ).1 == (Step::WriteFile {
            path: call->FileEdit_file_path,
            content: edited(content@, call->old_content, call->FileEdit_new_content),
        }),
{
}

/// A commit that failed leaves the call a success.
pub proof fn lemma_commit_failure_is_no_error(note: Seq<char>, message: String)
    ensures
        after_commit(note, Event::Failed(message)).1 is Finish,
        !(after_commit(note, Event::Failed(message)).1->Finish_0).is_error,
{
}

/// The names that a listing shows are those of the entries whose own paths
/// are allowed: each name shown belongs to such an entry, and each such
/// entry is shown.
pub proof fn lemma_listing_shows_allowed_only(
    fs: FsSnapshot,
    dirs: Seq<Seq<char>>,
    entries: Seq<Listed>,
    n: int,
)
    requires
        0 <= n <= entries.len(),
    ensures
        forall|i: int|
            0 <= i < visible_names(fs, dirs, entries, n).len() ==> exists|k: int|
                0 <= k < n && decision(fs, dirs, entries[k].path) == PathDecision::Allowed
                    && entries[k].name == #[trigger] visible_names(fs, dirs, entries, n)[i],
        forall|k: int|
            0 <= k < n && decision(fs, dirs, (#[trigger] entries[k]).path)
                == PathDecision::Allowed ==> visible_names(fs, dirs, entries, n).contains(
                entries[k].name,
            ),
    decreases n,
{
    if n > 0 {
        lemma_listing_shows_allowed_only(fs, dirs, entries, n - 1);
        let before = visible_names(fs, dirs, entries, n - 1);
        let now = visible_names(fs, dirs, entries, n);
        let shown = decision(fs, dirs, entries[n - 1].path) == PathDecision::Allowed;
        assert forall|i: int| 0 <= i < now.len() implies exists|k: int|
            0 <= k < n && decision(fs, dirs, entries[k].path) == PathDecision::Allowed
                && entries[k].name == #[trigger] now[i] by {
            if i < before.len() {
                assert(now[i] == before[i]);
                let k = choose|k: int|
                    0 <= k < n - 1 && decision(fs, dirs, entries[k].path)
                        == PathDecision::Allowed && entries[k].name == before[i];
                assert(0 <= k < n && entries[k].name == now[i]);
            } else {
                assert(entries[n - 1].name == now[i]);
            }
        }
        assert forall|k: int|
            0 <= k < n && decision(fs, dirs, (#[trigger] entries[k]).path)
                == PathDecision::Allowed implies now.contains(entries[k].name) by {
            if k < n - 1 {
                assert(before.contains(entries[k].name));
                let i = choose|i: int| 0 <= i < before.len() && before[i] == entries[k].name;
                assert(now[i] == entries[k].name);
            } else {
                assert(now[now.len() - 1] == entries[k].name);
            }
        }
    }
}

/// A directory with one entry that is allowed and one that is not lists
/// the name of the first and nothing else.
pub proof fn lemma_listing_of_two(
    fs: FsSnapshot,
    dirs: Seq<Seq<char>>,
    inside: Listed,
    outside: Listed,
)
    requires
        decision(fs, dirs, inside.path) == PathDecision::Allowed,
        decision(fs, dirs, outside.path) != PathDecision::Allowed,
    ensures
        listing(fs, dirs, seq![inside, outside]) == inside.name,
        listing(fs, dirs, seq![outside, inside]) == inside.name,
{
    let a = seq![inside, outside];
    let b = seq![outside, inside];
    assert(visible_names(fs, dirs, a, 0) =~= seq![]);
    assert(visible_names(fs, dirs, a, 1) =~= seq![inside.name]);
    assert(visible_names(fs, dirs, a, 2) =~= seq![inside.name]);
    assert(visible_names(fs, dirs, b, 0) =~= seq![]);
    assert(visible_names(fs, dirs, b, 1) =~= seq![]);
    assert(visible_names(fs, dirs, b, 2) =~= seq![inside.name]);
}

} // verus!
