//! The catalogue of tools: what each is called, what it is for, and which
//! parameters it declares.
use crate::dispatch::{required_fields, tool_name, Tool};
use crate::text::views;
use vstd::prelude::*;

verus! {

/// The kind of value that a parameter takes.
#[derive(Debug, Clone, Copy, PartialEq, Eq, Structural)]
pub enum ParamKind {
    Text,
    Flag,
}

/// One declared parameter of a tool.
#[derive(Debug)]
pub struct ToolParam {
    pub name: String,
    pub kind: ParamKind,
    pub description: String,
    pub required: bool,
}

/// What the catalogue says of one tool.
#[derive(Debug)]
pub struct ToolDescriptor {
    pub tool: Tool,
    pub name: String,
    pub description: String,
    pub params: Vec<ToolParam>,
}

/// A declared parameter as contracts read it.
pub ghost struct Declared {
    pub name: Seq<char>,
    pub kind: ParamKind,
    pub description: Seq<char>,
    pub required: bool,
}

/// The parameters of `v` as contracts read them.
pub open spec fn declared(v: Seq<ToolParam>) -> Seq<Declared> {
    Seq::new(
        v.len(),
        |k: int|
            Declared {
                name: v[k].name@,
                kind: v[k].kind,
                description: v[k].description@,
                required: v[k].required,
            },
    )
}

/// The tools in the order of the catalogue.
pub open spec fn all_tools() -> Seq<Tool> {
    seq![
        Tool::GetCurrentTimeInCity,
        Tool::GetLocalTime,
        Tool::FileEdit,
        Tool::ReadFile,
        Tool::ListDirectory,
        Tool::MoveOrRename,
        Tool::GetFileInfo,
        Tool::CreateDirectory,
        Tool::OverwriteFile,
        Tool::GrepSearch,
    ]
}

/// What a tool is for.
pub open spec fn tool_description(tool: Tool) -> Seq<char> {
    match tool {
        Tool::GetCurrentTimeInCity => "Get the current time in the city"@,
        Tool::GetLocalTime => "Get the current local time"@,
        Tool::FileEdit => "Replace exact text content in a file with optional git commit. Returns error if content not found or if there are multiple matches."@,
        Tool::ReadFile => "Read the contents of a file"@,
        Tool::ListDirectory => "List contents of a directory"@,
        Tool::MoveOrRename => "Move or rename a file or directory"@,
        Tool::GetFileInfo => "Get metadata about a file"@,
        Tool::CreateDirectory => "Create a new directory"@,
        Tool::OverwriteFile => "Overwrite the contents of a file"@,
        Tool::GrepSearch => "Search for a pattern in files or directories. For recursive searches, the path must be a directory. For non-recursive searches, the path must exist."@,
    }
}

/// The parameters that a tool declares, in the order of its declaration.
pub open spec fn declared_params(tool: Tool) -> Seq<Declared> {
    match tool {
        Tool::GetCurrentTimeInCity => seq![
            Declared {
                name: "city"@,
                kind: ParamKind::Text,
                description: "city name"@,
                required: true,
            },
        ],
        Tool::GetLocalTime => seq![],
        Tool::FileEdit => seq![
            Declared {
                name: "file_path"@,
                kind: ParamKind::Text,
                description: "Path to the file to edit"@,
                required: true,
            },
            Declared {
                name: "old_content"@,
                kind: ParamKind::Text,
                description: "Exact content to replace (must match uniquely)"@,
                required: true,
            },
            Declared {
                name: "new_content"@,
                kind: ParamKind::Text,
                description: "Content to insert instead"@,
                required: true,
            },
            Declared {
                name: "commit_message"@,
                kind: ParamKind::Text,
                description: "Message describing the purpose of this edit"@,
                required: true,
            },
        ],
        Tool::ReadFile => seq![
            Declared {
                name: "file_path"@,
                kind: ParamKind::Text,
                description: "Path to the file to read"@,
                required: true,
            },
        ],
        Tool::ListDirectory => seq![
            Declared {
                name: "path"@,
                kind: ParamKind::Text,
                description: "Path to directory to list"@,
                required: true,
            },
        ],
        Tool::MoveOrRename => seq![
            Declared {
                name: "source_path"@,
                kind: ParamKind::Text,
                description: "Source path to move/rename from"@,
                required: true,
            },
            Declared {
                name: "target_path"@,
                kind: ParamKind::Text,
                description: "Target path to move/rename to"@,
                required: true,
            },
            Declared {
                name: "commit_message"@,
                kind: ParamKind::Text,
                description: "Message describing the purpose of this move/rename"@,
                required: true,
            },
        ],
        Tool::GetFileInfo => seq![
            Declared {
                name: "path"@,
                kind: ParamKind::Text,
                description: "Path to file to get info about"@,
                required: true,
            },
        ],
        Tool::CreateDirectory => seq![
            Declared {
                name: "path"@,
                kind: ParamKind::Text,
                description: "Path to the new directory"@,
                required: true,
            },
            Declared {
                name: "commit_message"@,
                kind: ParamKind::Text,
                description: "Message describing the purpose of this directory creation"@,
                required: true,
            },
        ],
        Tool::OverwriteFile => seq![
            Declared {
                name: "path"@,
                kind: ParamKind::Text,
                description: "Path to the file to overwrite"@,
                required: true,
            },
            Declared {
                name: "content"@,
                kind: ParamKind::Text,
                description: "New content to write"@,
                required: true,
            },
        ],
        Tool::GrepSearch => seq![
            Declared {
                name: "pattern"@,
                kind: ParamKind::Text,
                description: "Pattern to search for"@,
                required: true,
            },
            Declared {
                name: "path"@,
                kind: ParamKind::Text,
                description: "Path to search in. For recursive searches this must be a directory."@,
                required: true,
            },
            Declared {
                name: "recursive"@,
                kind: ParamKind::Flag,
                description: "Whether to search recursively in subdirectories. Defaults to true."@,
                required: false,
            },
            Declared {
                name: "case_sensitive"@,
                kind: ParamKind::Flag,
                description: "Whether the search should be case sensitive. Defaults to true."@,
                required: false,
            },
        ],
    }
}

/// Whether `d` says of `tool` what the catalogue holds of it.
pub open spec fn describes(d: ToolDescriptor, tool: Tool) -> bool {
    &&& d.tool == tool
    &&& d.name@ == tool_name(tool)
    &&& d.description@ == tool_description(tool)
    &&& declared(d.params@) == declared_params(tool)
}

fn param(name: &str, kind: ParamKind, description: &str, required: bool) -> (p: ToolParam)
    ensures
        p.name@ == name@,
        p.kind == kind,
        p.description@ == description@,
        p.required == required,
{
    ToolParam { name: name.to_owned(), kind, description: description.to_owned(), required }
}

/// The name under which `tool` is called.
pub fn name_of(tool: Tool) -> (name: &'static str)
    ensures
        name@ == tool_name(tool),
{
    match tool {
        Tool::GetCurrentTimeInCity => "get_current_time_in_city",
        Tool::GetLocalTime => "get_local_time",
        Tool::FileEdit => "file_edit",
        Tool::ReadFile => "read_file",
        Tool::ListDirectory => "list_directory",
        Tool::MoveOrRename => "move_or_rename",
        Tool::GetFileInfo => "get_file_info",
        Tool::CreateDirectory => "create_directory",
        Tool::OverwriteFile => "overwrite_file",
        Tool::GrepSearch => "grep_search",
    }
}

/// What the catalogue holds of `tool`.
pub fn describe(tool: Tool) -> (d: ToolDescriptor)
    ensures
        describes(d, tool),
{
    let mut params: Vec<ToolParam> = Vec::new();
    let description: &str = match tool {
        Tool::GetCurrentTimeInCity => {
            params.push(param("city", ParamKind::Text, "city name", true));
            "Get the current time in the city"
        },
        Tool::GetLocalTime => {
            "Get the current local time"
        },
        Tool::FileEdit => {
            params.push(param("file_path", ParamKind::Text, "Path to the file to edit", true));
            params.push(param("old_content", ParamKind::Text, "Exact content to replace (must match uniquely)", true));
            params.push(param("new_content", ParamKind::Text, "Content to insert instead", true));
            params.push(param("commit_message", ParamKind::Text, "Message describing the purpose of this edit", true));
            "Replace exact text content in a file with optional git commit. Returns error if content not found or if there are multiple matches."
        },
        Tool::ReadFile => {
            params.push(param("file_path", ParamKind::Text, "Path to the file to read", true));
            "Read the contents of a file"
        },
        Tool::ListDirectory => {
            params.push(param("path", ParamKind::Text, "Path to directory to list", true));
            "List contents of a directory"
        },
        Tool::MoveOrRename => {
            params.push(param("source_path", ParamKind::Text, "Source path to move/rename from", true));
            params.push(param("target_path", ParamKind::Text, "Target path to move/rename to", true));
            params.push(param("commit_message", ParamKind::Text, "Message describing the purpose of this move/rename", true));
            "Move or rename a file or directory"
        },
        Tool::GetFileInfo => {
            params.push(param("path", ParamKind::Text, "Path to file to get info about", true));
            "Get metadata about a file"
        },
        Tool::CreateDirectory => {
            params.push(param("path", ParamKind::Text, "Path to the new directory", true));
            params.push(param("commit_message", ParamKind::Text, "Message describing the purpose of this directory creation", true));
            "Create a new directory"
        },
        Tool::OverwriteFile => {
            params.push(param("path", ParamKind::Text, "Path to the file to overwrite", true));
            params.push(param("content", ParamKind::Text, "New content to write", true));
            "Overwrite the contents of a file"
        },
        Tool::GrepSearch => {
            params.push(param("pattern", ParamKind::Text, "Pattern to search for", true));
            params.push(param("path", ParamKind::Text, "Path to search in. For recursive searches this must be a directory.", true));
            params.push(param("recursive", ParamKind::Flag, "Whether to search recursively in subdirectories. Defaults to true.", false));
            params.push(param("case_sensitive", ParamKind::Flag, "Whether the search should be case sensitive. Defaults to true.", false));
            "Search for a pattern in files or directories. For recursive searches, the path must be a directory. For non-recursive searches, the path must exist."
        },
    };
    assert(declared(params@) =~= declared_params(tool));
    ToolDescriptor {
        tool,
        name: name_of(tool).to_owned(),
        description: description.to_owned(),
        params,
    }
}

/// The catalogue: every tool, each described, in a fixed order.
pub fn tools_list() -> (list: Vec<ToolDescriptor>)
    ensures
        list@.len() == all_tools().len(),
        forall|k: int| 0 <= k < list@.len() ==> describes(#[trigger] list@[k], all_tools()[k]),
{
    let mut list: Vec<ToolDescriptor> = Vec::new();
    list.push(describe(Tool::GetCurrentTimeInCity));
    list.push(describe(Tool::GetLocalTime));
    list.push(describe(Tool::FileEdit));
    list.push(describe(Tool::ReadFile));
    list.push(describe(Tool::ListDirectory));
    list.push(describe(Tool::MoveOrRename));
    list.push(describe(Tool::GetFileInfo));
    list.push(describe(Tool::CreateDirectory));
    list.push(describe(Tool::OverwriteFile));
    list.push(describe(Tool::GrepSearch));
    list
}

/// Every tool stands in the catalogue.
pub proof fn lemma_catalogue_is_complete(tool: Tool)
    ensures
        all_tools().contains(tool),
{
    assert(all_tools()[0] == Tool::GetCurrentTimeInCity);
    assert(all_tools()[1] == Tool::GetLocalTime);
    assert(all_tools()[2] == Tool::FileEdit);
    assert(all_tools()[3] == Tool::ReadFile);
    assert(all_tools()[4] == Tool::ListDirectory);
    assert(all_tools()[5] == Tool::MoveOrRename);
    assert(all_tools()[6] == Tool::GetFileInfo);
    assert(all_tools()[7] == Tool::CreateDirectory);
    assert(all_tools()[8] == Tool::OverwriteFile);
    assert(all_tools()[9] == Tool::GrepSearch);
}

/// Whether `tool` declares a parameter called `name` that takes a text and
/// is marked as required.
pub open spec fn declares_required_text(tool: Tool, name: Seq<char>) -> bool {
    exists|k: int|
        0 <= k < declared_params(tool).len() && (#[trigger] declared_params(tool)[k]).name == name
            && declared_params(tool)[k].kind == ParamKind::Text && declared_params(
            tool,
        )[k].required
}

/// Every parameter without which a call is refused is declared in the
/// catalogue, as a text that is required.
pub proof fn lemma_needed_fields_are_declared(tool: Tool, k: int)
    requires
        0 <= k < required_fields(tool).len(),
    ensures
        declares_required_text(tool, required_fields(tool)[k]),
{
    let want = required_fields(tool)[k];
    assert(declared_params(tool)[k].name == want);
}

} // verus!
