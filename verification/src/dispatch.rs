//! Tool dispatch: from a method name and a bag of untyped parameters to a
//! typed tool call, or to a protocol error.
//!
//! Nothing here touches a disk. A call that fails here has done nothing.
use crate::requests::{
    CreateDirectoryRequest, CurrentTimeRequest, FileEditRequest, GetFileInfoRequest,
    GetLocalTimeRequest, GrepSearchRequest, ListDirectoryRequest, MoveOrRenameRequest,
    OverwriteFileRequest, ReadFileRequest, ToolCall, ToolRequest,
};
use crate::text::same_text;
use vstd::prelude::*;

verus! {

/// The tools, as a closed set.
#[derive(Debug, Clone, Copy, PartialEq, Eq, Structural)]
pub enum Tool {
    GetCurrentTimeInCity,
    GetLocalTime,
    FileEdit,
    ReadFile,
    ListDirectory,
    MoveOrRename,
    GetFileInfo,
    CreateDirectory,
    OverwriteFile,
    GrepSearch,
}

/// The method name under which a tool is called.
pub open spec fn tool_name(tool: Tool) -> Seq<char> {
    match tool {
        Tool::GetCurrentTimeInCity => "get_current_time_in_city"@,
        Tool::GetLocalTime => "get_local_time"@,
        Tool::FileEdit => "file_edit"@,
        Tool::ReadFile => "read_file"@,
        Tool::ListDirectory => "list_directory"@,
        Tool::MoveOrRename => "move_or_rename"@,
        Tool::GetFileInfo => "get_file_info"@,
        Tool::CreateDirectory => "create_directory"@,
        Tool::OverwriteFile => "overwrite_file"@,
        Tool::GrepSearch => "grep_search"@,
    }
}

/// The tool that a method name stands for, if it stands for one.
pub open spec fn tool_named(method: Seq<char>) -> Option<Tool> {
    if method == tool_name(Tool::GetCurrentTimeInCity) {
        Some(Tool::GetCurrentTimeInCity)
    } else if method == tool_name(Tool::GetLocalTime) {
        Some(Tool::GetLocalTime)
    } else if method == tool_name(Tool::FileEdit) {
        Some(Tool::FileEdit)
    } else if method == tool_name(Tool::ReadFile) {
        Some(Tool::ReadFile)
    } else if method == tool_name(Tool::ListDirectory) {
        Some(Tool::ListDirectory)
    } else if method == tool_name(Tool::MoveOrRename) {
        Some(Tool::MoveOrRename)
    } else if method == tool_name(Tool::GetFileInfo) {
        Some(Tool::GetFileInfo)
    } else if method == tool_name(Tool::CreateDirectory) {
        Some(Tool::CreateDirectory)
    } else if method == tool_name(Tool::OverwriteFile) {
        Some(Tool::OverwriteFile)
    } else if method == tool_name(Tool::GrepSearch) {
        Some(Tool::GrepSearch)
    } else {
        None
    }
}

/// The tool that `method` names.
pub fn find_tool(method: &str) -> (r: Option<Tool>)
    ensures
        r == tool_named(method@),
{
    if same_text(method, "get_current_time_in_city") {
        Some(Tool::GetCurrentTimeInCity)
    } else if same_text(method, "get_local_time") {
        Some(Tool::GetLocalTime)
    } else if same_text(method, "file_edit") {
        Some(Tool::FileEdit)
    } else if same_text(method, "read_file") {
        Some(Tool::ReadFile)
    } else if same_text(method, "list_directory") {
        Some(Tool::ListDirectory)
    } else if same_text(method, "move_or_rename") {
        Some(Tool::MoveOrRename)
    } else if same_text(method, "get_file_info") {
        Some(Tool::GetFileInfo)
    } else if same_text(method, "create_directory") {
        Some(Tool::CreateDirectory)
    } else if same_text(method, "overwrite_file") {
        Some(Tool::OverwriteFile)
    } else if same_text(method, "grep_search") {
        Some(Tool::GrepSearch)
    } else {
        None
    }
}

/// The value of one parameter, as far as the tools read it.
#[derive(Debug)]
pub enum ParamValue {
    Null,
    Flag(bool),
    Text(String),
    /// A number, a list or an object: no tool takes one.
    Other,
}

/// One named parameter.
#[derive(Debug)]
pub struct Param {
    pub name: String,
    pub value: ParamValue,
}

/// The parameters of a call as they came in.
#[derive(Debug)]
pub enum Params {
    /// The call came without parameters.
    Absent,
    /// Named parameters. Of two with one name the first counts.
    Fields(Vec<Param>),
    /// Parameters that are not a set of named values.
    Other,
}

/// Why a call was refused before any tool ran.
#[derive(Debug)]
pub enum DispatchError {
    /// No tool has this name.
    MethodUnknown,
    /// The tool takes parameters and the call has none.
    ParamsMissing,
    /// The parameters are not a set of named values.
    ParamsMalformed,
    /// A parameter that the tool needs is not there.
    MissingField { name: String },
    /// A parameter holds a value of a kind that the tool does not take.
    WrongType { name: String },
}

/// A dispatch error as contracts read it.
pub ghost enum DispatchFault {
    MethodUnknown,
    ParamsMissing,
    ParamsMalformed,
    MissingField { name: Seq<char> },
    WrongType { name: Seq<char> },
}

impl View for DispatchError {
    type V = DispatchFault;

    open spec fn view(&self) -> DispatchFault {
        match self {
            DispatchError::MethodUnknown => DispatchFault::MethodUnknown,
            DispatchError::ParamsMissing => DispatchFault::ParamsMissing,
            DispatchError::ParamsMalformed => DispatchFault::ParamsMalformed,
            DispatchError::MissingField { name } => DispatchFault::MissingField { name: name@ },
            DispatchError::WrongType { name } => DispatchFault::WrongType { name: name@ },
        }
    }
}

/// The code of the error class: -32601 for an unknown method, -32602 for
/// anything wrong with the parameters.
pub open spec fn fault_code(fault: DispatchFault) -> int {
    match fault {
        DispatchFault::MethodUnknown => -32601,
        _ => -32602,
    }
}

impl DispatchError {
    /// The code of the error's class.
    pub fn code(&self) -> (c: i32)
        ensures
            c == fault_code(self@),
    {
        match self {
            DispatchError::MethodUnknown => -32601,
            _ => -32602,
        }
    }

    /// The message of the error's class.
    pub fn message(&self) -> (m: &'static str)
        ensures
            m@ == (if self@ is MethodUnknown {
                "Method not found"@
            } else {
                "Invalid params"@
            }),
    {
        match self {
            DispatchError::MethodUnknown => "Method not found",
            _ => "Invalid params",
        }
    }
}

/// The value of the first field called `name` from `i` on.
pub open spec fn field_from(fields: Seq<Param>, name: Seq<char>, i: int) -> Option<ParamValue>
    decreases fields.len() - i,
{
    if i < 0 || i >= fields.len() {
        None
    } else if fields[i].name@ == name {
        Some(fields[i].value)
    } else {
        field_from(fields, name, i + 1)
    }
}

/// The value of the field called `name`.
pub open spec fn field(fields: Seq<Param>, name: Seq<char>) -> Option<ParamValue> {
    field_from(fields, name, 0)
}

/// A text that the tool needs: the field must be there and hold a text.
pub open spec fn needed_text(fields: Seq<Param>, name: Seq<char>) -> Result<
    Seq<char>,
    DispatchFault,
> {
    match field(fields, name) {
        None => Err(DispatchFault::MissingField { name }),
        Some(ParamValue::Text(text)) => Ok(text@),
        Some(_) => Err(DispatchFault::WrongType { name }),
    }
}

/// A text that the tool can do without: a field that is not there, or that
/// holds null, gives none.
pub open spec fn optional_text(fields: Seq<Param>, name: Seq<char>) -> Result<
    Option<Seq<char>>,
    DispatchFault,
> {
    match field(fields, name) {
        None => Ok(None),
        Some(ParamValue::Null) => Ok(None),
        Some(ParamValue::Text(text)) => Ok(Some(text@)),
        Some(_) => Err(DispatchFault::WrongType { name }),
    }
}

/// A flag that the tool can do without.
pub open spec fn optional_flag(fields: Seq<Param>, name: Seq<char>) -> Result<
    Option<bool>,
    DispatchFault,
> {
    match field(fields, name) {
        None => Ok(None),
        Some(ParamValue::Null) => Ok(None),
        Some(ParamValue::Flag(flag)) => Ok(Some(flag)),
        Some(_) => Err(DispatchFault::WrongType { name }),
    }
}

fn find_field<'a>(fields: &'a Vec<Param>, name: &str) -> (r: Option<&'a ParamValue>)
    ensures
        match r {
            Some(value) => field(fields@, name@) == Some(*value),
            None => field(fields@, name@) is None,
        },
{
    let mut i: usize = 0;
    while i < fields.len()
        invariant
            i <= fields.len(),
            field(fields@, name@) == field_from(fields@, name@, i as int),
        decreases fields.len() - i,
    {
        if same_text(fields[i].name.as_str(), name) {
            return Some(&fields[i].value);
        }
        i += 1;
    }
    None
}

/// The text of the field called `name`, which must be there and hold a text.
pub fn take_text(fields: &Vec<Param>, name: &str) -> (r: Result<String, DispatchError>)
    ensures
        match r {
            Ok(text) => needed_text(fields@, name@) == Ok::<Seq<char>, DispatchFault>(text@),
            Err(e) => needed_text(fields@, name@) == Err::<Seq<char>, DispatchFault>(e@),
        },
{
    match find_field(fields, name) {
        None => Err(DispatchError::MissingField { name: name.to_owned() }),
        Some(ParamValue::Text(text)) => Ok(text.clone()),
        Some(_) => Err(DispatchError::WrongType { name: name.to_owned() }),
    }
}

fn take_optional_text(fields: &Vec<Param>, name: &str) -> (r: Result<Option<String>, DispatchError>)
    ensures
        match r {
            Ok(Some(text)) => optional_text(fields@, name@) == Ok::<
                Option<Seq<char>>,
                DispatchFault,
            >(Some(text@)),
            Ok(None) => optional_text(fields@, name@) == Ok::<Option<Seq<char>>, DispatchFault>(
                None,
            ),
            Err(e) => optional_text(fields@, name@) == Err::<Option<Seq<char>>, DispatchFault>(
                e@,
            ),
        },
{
    match find_field(fields, name) {
        None => Ok(None),
        Some(ParamValue::Null) => Ok(None),
        Some(ParamValue::Text(text)) => Ok(Some(text.clone())),
        Some(_) => Err(DispatchError::WrongType { name: name.to_owned() }),
    }
}

fn take_optional_flag(fields: &Vec<Param>, name: &str) -> (r: Result<Option<bool>, DispatchError>)
    ensures
        match r {
            Ok(flag) => optional_flag(fields@, name@) == Ok::<Option<bool>, DispatchFault>(flag),
            Err(e) => optional_flag(fields@, name@) == Err::<Option<bool>, DispatchFault>(e@),
        },
{
    match find_field(fields, name) {
        None => Ok(None),
        Some(ParamValue::Null) => Ok(None),
        Some(ParamValue::Flag(flag)) => Ok(Some(*flag)),
        Some(_) => Err(DispatchError::WrongType { name: name.to_owned() }),
    }
}

/// The parameters that a tool cannot do without, in the order in which
/// they are read.
pub open spec fn required_fields(tool: Tool) -> Seq<Seq<char>> {
    match tool {
        Tool::GetCurrentTimeInCity => seq![],
        Tool::GetLocalTime => seq![],
        Tool::FileEdit => seq![
            "file_path"@,
            "old_content"@,
            "new_content"@,
            "commit_message"@,
        ],
        Tool::ReadFile => seq!["file_path"@],
        Tool::ListDirectory => seq!["path"@],
        Tool::MoveOrRename => seq!["source_path"@, "target_path"@, "commit_message"@],
        Tool::GetFileInfo => seq!["path"@],
        Tool::CreateDirectory => seq!["path"@, "commit_message"@],
        Tool::OverwriteFile => seq!["path"@, "content"@],
        Tool::GrepSearch => seq!["pattern"@, "path"@],
    }
}

/// The call that `fields` make for `tool`, or what is wrong with the first
/// parameter that is not as the tool needs it. Parameters that the tool does
/// not know are passed over.
pub open spec fn call_of(tool: Tool, fields: Seq<Param>) -> Result<ToolCall, DispatchFault> {
    match tool {
        Tool::GetCurrentTimeInCity => {
            let city = optional_text(fields, "city"@);
            if city is Err {
                Err(city->Err_0)
            } else {
                Ok(ToolCall::CurrentTime { city: city->Ok_0 })
            }
        },
        Tool::GetLocalTime => Ok(ToolCall::GetLocalTime),
        Tool::FileEdit => {
            let file_path = needed_text(fields, "file_path"@);
            let old_content = needed_text(fields, "old_content"@);
            let new_content = needed_text(fields, "new_content"@);
            let commit_message = needed_text(fields, "commit_message"@);
            if file_path is Err {
                Err(file_path->Err_0)
            } else if old_content is Err {
                Err(old_content->Err_0)
            } else if new_content is Err {
                Err(new_content->Err_0)
            } else if commit_message is Err {
                Err(commit_message->Err_0)
            } else {
                Ok(
                    ToolCall::FileEdit {
                        file_path: file_path->Ok_0,
                        old_content: old_content->Ok_0,
                        new_content: new_content->Ok_0,
                        commit_message: commit_message->Ok_0,
                    },
                )
            }
        },
        Tool::ReadFile => {
            let file_path = needed_text(fields, "file_path"@);
            if file_path is Err {
                Err(file_path->Err_0)
            } else {
                Ok(ToolCall::ReadFile { file_path: file_path->Ok_0 })
            }
        },
        Tool::ListDirectory => {
            let path = needed_text(fields, "path"@);
            if path is Err {
                Err(path->Err_0)
            } else {
                Ok(ToolCall::ListDirectory { path: path->Ok_0 })
            }
        },
        Tool::MoveOrRename => {
            let source_path = needed_text(fields, "source_path"@);
            let target_path = needed_text(fields, "target_path"@);
            let commit_message = needed_text(fields, "commit_message"@);
            if source_path is Err {
                Err(source_path->Err_0)
            } else if target_path is Err {
                Err(target_path->Err_0)
            } else if commit_message is Err {
                Err(commit_message->Err_0)
            } else {
                Ok(
                    ToolCall::MoveOrRename {
                        source_path: source_path->Ok_0,
                        target_path: target_path->Ok_0,
                        commit_message: commit_message->Ok_0,
                    },
                )
            }
        },
        Tool::GetFileInfo => {
            let path = needed_text(fields, "path"@);
            if path is Err {
                Err(path->Err_0)
            } else {
                Ok(ToolCall::GetFileInfo { path: path->Ok_0 })
            }
        },
        Tool::CreateDirectory => {
            let path = needed_text(fields, "path"@);
            let commit_message = needed_text(fields, "commit_message"@);
            if path is Err {
                Err(path->Err_0)
            } else if commit_message is Err {
                Err(commit_message->Err_0)
            } else {
                Ok(
                    ToolCall::CreateDirectory {
                        path: path->Ok_0,
                        commit_message: commit_message->Ok_0,
                    },
                )
            }
        },
        Tool::OverwriteFile => {
            let path = needed_text(fields, "path"@);
            let content = needed_text(fields, "content"@);
            if path is Err {
                Err(path->Err_0)
            } else if content is Err {
                Err(content->Err_0)
            } else {
                Ok(ToolCall::OverwriteFile { path: path->Ok_0, content: content->Ok_0 })
            }
        },
        Tool::GrepSearch => {
            let pattern = needed_text(fields, "pattern"@);
            let path = needed_text(fields, "path"@);
            let recursive = optional_flag(fields, "recursive"@);
            let case_sensitive = optional_flag(fields, "case_sensitive"@);
            if pattern is Err {
                Err(pattern->Err_0)
            } else if path is Err {
                Err(path->Err_0)
            } else if recursive is Err {
                Err(recursive->Err_0)
            } else if case_sensitive is Err {
                Err(case_sensitive->Err_0)
            } else {
                Ok(
                    ToolCall::GrepSearch {
                        pattern: pattern->Ok_0,
                        path: path->Ok_0,
                        recursive: recursive->Ok_0,
                        case_sensitive: case_sensitive->Ok_0,
                    },
                )
            }
        },
    }
}

/// What a call of `method` with `params` comes to: the typed call, or the
/// error. An unknown method is refused whatever the parameters are.
pub open spec fn dispatched(method: Seq<char>, params: Params) -> Result<ToolCall, DispatchFault> {
    match tool_named(method) {
        None => Err(DispatchFault::MethodUnknown),
        Some(tool) => match params {
            Params::Absent => Err(DispatchFault::ParamsMissing),
            Params::Other => Err(DispatchFault::ParamsMalformed),
            Params::Fields(fields) => call_of(tool, fields@),
        },
    }
}

/// Read the parameters of `tool` out of `fields`.
pub fn build_request(tool: Tool, fields: &Vec<Param>) -> (r: Result<ToolRequest, DispatchError>)
    ensures
        match r {
            Ok(request) => call_of(tool, fields@) == Ok::<ToolCall, DispatchFault>(request@),
            Err(e) => call_of(tool, fields@) == Err::<ToolCall, DispatchFault>(e@),
        },
{
    match tool {
        Tool::GetCurrentTimeInCity => {
            let city = match take_optional_text(fields, "city") {
                Ok(v) => v,
                Err(e) => return Err(e),
            };
            Ok(ToolRequest::CurrentTime(CurrentTimeRequest { city }))
        },
        Tool::GetLocalTime => Ok(ToolRequest::GetLocalTime(GetLocalTimeRequest {  })),
        Tool::FileEdit => {
            let file_path = match take_text(fields, "file_path") {
                Ok(v) => v,
                Err(e) => return Err(e),
            };
            let old_content = match take_text(fields, "old_content") {
                Ok(v) => v,
                Err(e) => return Err(e),
            };
            let new_content = match take_text(fields, "new_content") {
                Ok(v) => v,
                Err(e) => return Err(e),
            };
            let commit_message = match take_text(fields, "commit_message") {
                Ok(v) => v,
                Err(e) => return Err(e),
            };
            Ok(
                ToolRequest::FileEdit(
                    FileEditRequest { file_path, old_content, new_content, commit_message },
                ),
            )
        },
        Tool::ReadFile => {
            let file_path = match take_text(fields, "file_path") {
                Ok(v) => v,
                Err(e) => return Err(e),
            };
            Ok(ToolRequest::ReadFile(ReadFileRequest { file_path }))
        },
        Tool::ListDirectory => {
            let path = match take_text(fields, "path") {
                Ok(v) => v,
                Err(e) => return Err(e),
            };
            Ok(ToolRequest::ListDirectory(ListDirectoryRequest { path }))
        },
        Tool::MoveOrRename => {
            let source_path = match take_text(fields, "source_path") {
                Ok(v) => v,
                Err(e) => return Err(e),
            };
            let target_path = match take_text(fields, "target_path") {
                Ok(v) => v,
                Err(e) => return Err(e),
            };
            let commit_message = match take_text(fields, "commit_message") {
                Ok(v) => v,
                Err(e) => return Err(e),
            };
            Ok(
                ToolRequest::MoveOrRename(
                    MoveOrRenameRequest { source_path, target_path, commit_message },
                ),
            )
        },
        Tool::GetFileInfo => {
            let path = match take_text(fields, "path") {
                Ok(v) => v,
                Err(e) => return Err(e),
            };
            Ok(ToolRequest::GetFileInfo(GetFileInfoRequest { path }))
        },
        Tool::CreateDirectory => {
            let path = match take_text(fields, "path") {
                Ok(v) => v,
                Err(e) => return Err(e),
            };
            let commit_message = match take_text(fields, "commit_message") {
                Ok(v) => v,
                Err(e) => return Err(e),
            };
            Ok(ToolRequest::CreateDirectory(CreateDirectoryRequest { path, commit_message }))
        },
        Tool::OverwriteFile => {
            let path = match take_text(fields, "path") {
                Ok(v) => v,
                Err(e) => return Err(e),
            };
            let content = match take_text(fields, "content") {
                Ok(v) => v,
                Err(e) => return Err(e),
            };
            Ok(ToolRequest::OverwriteFile(OverwriteFileRequest { path, content }))
        },
        Tool::GrepSearch => {
            let pattern = match take_text(fields, "pattern") {
                Ok(v) => v,
                Err(e) => return Err(e),
            };
            let path = match take_text(fields, "path") {
                Ok(v) => v,
                Err(e) => return Err(e),
            };
            let recursive = match take_optional_flag(fields, "recursive") {
                Ok(v) => v,
                Err(e) => return Err(e),
            };
            let case_sensitive = match take_optional_flag(fields, "case_sensitive") {
                Ok(v) => v,
                Err(e) => return Err(e),
            };
            Ok(
                ToolRequest::GrepSearch(
                    GrepSearchRequest { pattern, path, recursive, case_sensitive },
                ),
            )
        },
    }
}

/// Turn a method name and its parameters into a typed tool call.
///
/// A name that no tool has is refused as such, whatever the parameters; a
/// call whose parameters are missing or are not as the tool needs them is
/// refused with the parameter in question.
pub fn dispatch(method: &str, params: &Params) -> (r: Result<ToolRequest, DispatchError>)
    ensures
        match r {
            Ok(request) => dispatched(method@, *params) == Ok::<ToolCall, DispatchFault>(
                request@,
            ),
            Err(e) => dispatched(method@, *params) == Err::<ToolCall, DispatchFault>(e@),
        },
{
    match find_tool(method) {
        None => Err(DispatchError::MethodUnknown),
        Some(tool) => match params {
            Params::Absent => Err(DispatchError::ParamsMissing),
            Params::Other => Err(DispatchError::ParamsMalformed),
            Params::Fields(fields) => build_request(tool, fields),
        },
    }
}

/// A method name that no tool has gives the same error whatever the
/// parameters are.
pub proof fn lemma_unknown_method_refused(method: Seq<char>, params: Params)
    requires
        tool_named(method) is None,
    ensures
        dispatched(method, params) == Err::<ToolCall, DispatchFault>(
            DispatchFault::MethodUnknown,
        ),
        fault_code(dispatched(method, params)->Err_0) == -32601,
{
}

/// Every error over the parameters of a known tool is of one class.
pub proof fn lemma_param_errors_are_one_class(tool: Tool, params: Params)
    requires
        dispatched(tool_name(tool), params) is Err,
    ensures
        fault_code(dispatched(tool_name(tool), params)->Err_0) == -32602,
{
    lemma_tool_names(tool);
}

/// A call of a known tool that lacks a parameter which the tool needs is
/// refused over its parameters, whatever else it holds.
pub proof fn lemma_missing_field_refused(tool: Tool, fields: Seq<Param>, k: int)
    requires
        0 <= k < required_fields(tool).len(),
        field(fields, required_fields(tool)[k]) is None,
    ensures
        call_of(tool, fields) is Err,
        fault_code(call_of(tool, fields)->Err_0) == -32602,
        call_of(tool, fields)->Err_0 is MissingField || call_of(tool, fields)->Err_0 is WrongType,
{
}

/// Each tool is found under its own name.
pub proof fn lemma_tool_names(tool: Tool)
    ensures
        tool_named(tool_name(tool)) == Some(tool),
{
    reveal_strlit("get_current_time_in_city");
    reveal_strlit("get_local_time");
    reveal_strlit("file_edit");
    reveal_strlit("read_file");
    reveal_strlit("list_directory");
    reveal_strlit("move_or_rename");
    reveal_strlit("get_file_info");
    reveal_strlit("create_directory");
    reveal_strlit("overwrite_file");
    reveal_strlit("grep_search");
    let name = tool_name(tool);
    if tool != Tool::GetCurrentTimeInCity {
        assert(name.len() != "get_current_time_in_city"@.len());
    }
    if tool != Tool::GetLocalTime {
        assert(name.len() != "get_local_time"@.len() || name[0] != 'g' || name[4] != 'l');
    }
    if tool != Tool::FileEdit {
        assert(name.len() != "file_edit"@.len() || name[0] != 'f');
    }
    if tool != Tool::ReadFile {
        assert(name.len() != "read_file"@.len() || name[0] != 'r');
    }
    if tool != Tool::ListDirectory {
        assert(name.len() != "list_directory"@.len() || name[0] != 'l');
    }
    if tool != Tool::MoveOrRename {
        assert(name.len() != "move_or_rename"@.len() || name[0] != 'm');
    }
    if tool != Tool::GetFileInfo {
        assert(name.len() != "get_file_info"@.len());
    }
    if tool != Tool::CreateDirectory {
        assert(name.len() != "create_directory"@.len());
    }
    if tool != Tool::OverwriteFile {
        assert(name.len() != "overwrite_file"@.len() || name[0] != 'o');
    }
}

} // verus!
