//! The parameters of each tool, and the tool call as one closed type.
use crate::text::option_view;
use vstd::prelude::*;

verus! {

#[derive(Debug)]
pub struct CurrentTimeRequest {
    pub city: Option<String>,
}

#[derive(Debug)]
pub struct GetLocalTimeRequest {}

#[derive(Debug)]
pub struct FileEditRequest {
    pub file_path: String,
    pub old_content: String,
    pub new_content: String,
    pub commit_message: String,
}

#[derive(Debug)]
pub struct CreateDirectoryRequest {
    pub path: String,
    pub commit_message: String,
}

#[derive(Debug)]
pub struct OverwriteFileRequest {
    pub path: String,
    pub content: String,
}

#[derive(Debug)]
pub struct ReadFileRequest {
    pub file_path: String,
}

#[derive(Debug)]
pub struct ListDirectoryRequest {
    pub path: String,
}

#[derive(Debug)]
pub struct MoveOrRenameRequest {
    pub source_path: String,
    pub target_path: String,
    pub commit_message: String,
}

#[derive(Debug)]
pub struct GetFileInfoRequest {
    pub path: String,
}

#[derive(Debug)]
pub struct GrepSearchRequest {
    pub pattern: String,
    pub path: String,
    pub recursive: Option<bool>,
    pub case_sensitive: Option<bool>,
}

#[derive(Debug)]
pub struct GetAllowedDirectoriesRequest {}

/// A client's notice that it gave up on a request.
#[derive(Debug)]
pub struct CancelledNotification {
    pub request_id: String,
    pub reason: Option<String>,
}

/// One call of a tool, with its parameters.
#[derive(Debug)]
pub enum ToolRequest {
    CurrentTime(CurrentTimeRequest),
    GetLocalTime(GetLocalTimeRequest),
    FileEdit(FileEditRequest),
    ReadFile(ReadFileRequest),
    ListDirectory(ListDirectoryRequest),
    MoveOrRename(MoveOrRenameRequest),
    GetFileInfo(GetFileInfoRequest),
    CreateDirectory(CreateDirectoryRequest),
    OverwriteFile(OverwriteFileRequest),
    GrepSearch(GrepSearchRequest),
}

/// A tool call as contracts read it: each text by its characters.
pub ghost enum ToolCall {
    CurrentTime { city: Option<Seq<char>> },
    GetLocalTime,
    FileEdit {
        file_path: Seq<char>,
        old_content: Seq<char>,
        new_content: Seq<char>,
        commit_message: Seq<char>,
    },
    ReadFile { file_path: Seq<char> },
    ListDirectory { path: Seq<char> },
    MoveOrRename { source_path: Seq<char>, target_path: Seq<char>, commit_message: Seq<char> },
    GetFileInfo { path: Seq<char> },
    CreateDirectory { path: Seq<char>, commit_message: Seq<char> },
    OverwriteFile { path: Seq<char>, content: Seq<char> },
    GrepSearch {
        pattern: Seq<char>,
        path: Seq<char>,
        recursive: Option<bool>,
        case_sensitive: Option<bool>,
    },
}

impl View for ToolRequest {
    type V = ToolCall;

    open spec fn view(&self) -> ToolCall {
        match self {
            ToolRequest::CurrentTime(r) => ToolCall::CurrentTime { city: option_view(r.city) },
            ToolRequest::GetLocalTime(_) => ToolCall::GetLocalTime,
            ToolRequest::FileEdit(r) => ToolCall::FileEdit {
                file_path: r.file_path@,
                old_content: r.old_content@,
                new_content: r.new_content@,
                commit_message: r.commit_message@,
            },
            ToolRequest::ReadFile(r) => ToolCall::ReadFile { file_path: r.file_path@ },
            ToolRequest::ListDirectory(r) => ToolCall::ListDirectory { path: r.path@ },
            ToolRequest::MoveOrRename(r) => ToolCall::MoveOrRename {
                source_path: r.source_path@,
                target_path: r.target_path@,
                commit_message: r.commit_message@,
            },
            ToolRequest::GetFileInfo(r) => ToolCall::GetFileInfo { path: r.path@ },
            ToolRequest::CreateDirectory(r) => ToolCall::CreateDirectory {
                path: r.path@,
                commit_message: r.commit_message@,
            },
            ToolRequest::OverwriteFile(r) => ToolCall::OverwriteFile {
                path: r.path@,
                content: r.content@,
            },
            ToolRequest::GrepSearch(r) => ToolCall::GrepSearch {
                pattern: r.pattern@,
                path: r.path@,
                recursive: r.recursive,
                case_sensitive: r.case_sensitive,
            },
        }
    }
}

/// The paths that a call names: each must be allowed before the call may
/// touch the disk.
pub open spec fn paths_of(call: ToolCall) -> Seq<Seq<char>> {
    match call {
        ToolCall::CurrentTime { .. } => seq![],
        ToolCall::GetLocalTime => seq![],
        ToolCall::FileEdit { file_path, .. } => seq![file_path],
        ToolCall::ReadFile { file_path } => seq![file_path],
        ToolCall::ListDirectory { path } => seq![path],
        ToolCall::MoveOrRename { source_path, target_path, .. } => seq![source_path, target_path],
        ToolCall::GetFileInfo { path } => seq![path],
        ToolCall::CreateDirectory { path, .. } => seq![path],
        ToolCall::OverwriteFile { path, .. } => seq![path],
        ToolCall::GrepSearch { path, .. } => seq![path],
    }
}

} // verus!
