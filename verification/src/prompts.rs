//! The prompts that the server offers: a list of them, and the message that
//! each makes of its arguments.
use crate::dispatch::{needed_text, take_text, Param, Params};
use crate::text::{appended, option_view, same_text};
use vstd::prelude::*;

verus! {

/// The prompts, as a closed set.
#[derive(Debug, Clone, Copy, PartialEq, Eq, Structural)]
pub enum PromptKind {
    CurrentTime,
    GetLocalTime,
    FileEdit,
    ReadFile,
    ListDirectory,
    MoveOrRename,
    GetFileInfo,
    CreateDirectory,
    OverwriteFile,
}

/// One argument that a prompt declares.
#[derive(Debug)]
pub struct PromptArgument {
    pub name: String,
    pub description: Option<String>,
    pub required: Option<bool>,
}

/// One prompt as the server lists it.
#[derive(Debug)]
pub struct Prompt {
    pub name: String,
    pub description: Option<String>,
    pub arguments: Option<Vec<PromptArgument>>,
}

#[derive(Debug)]
pub struct PromptMessageContent {
    pub kind: String,
    pub text: String,
}

#[derive(Debug)]
pub struct PromptMessage {
    pub role: String,
    pub content: PromptMessageContent,
}

/// A prompt filled in with its arguments.
#[derive(Debug)]
pub struct PromptResult {
    pub description: String,
    pub messages: Option<Vec<PromptMessage>>,
}

/// Why a prompt could not be filled in.
#[derive(Debug)]
pub enum PromptError {
    /// No prompt has this name.
    UnknownPrompt,
    /// An argument that the prompt reads is not there, or is no text.
    BadArgument { name: String },
}

/// A prompt error as contracts read it.
pub ghost enum PromptFault {
    UnknownPrompt,
    BadArgument { name: Seq<char> },
}

impl View for PromptError {
    type V = PromptFault;

    open spec fn view(&self) -> PromptFault {
        match self {
            PromptError::UnknownPrompt => PromptFault::UnknownPrompt,
            PromptError::BadArgument { name } => PromptFault::BadArgument { name: name@ },
        }
    }
}

/// The prompts in the order of the list.
pub open spec fn all_prompts() -> Seq<PromptKind> {
    seq![
        PromptKind::CurrentTime,
        PromptKind::GetLocalTime,
        PromptKind::FileEdit,
        PromptKind::ReadFile,
        PromptKind::ListDirectory,
        PromptKind::MoveOrRename,
        PromptKind::GetFileInfo,
        PromptKind::CreateDirectory,
        PromptKind::OverwriteFile,
    ]
}

/// The name of a prompt.
pub open spec fn prompt_name(kind: PromptKind) -> Seq<char> {
    match kind {
        PromptKind::CurrentTime => "current_time"@,
        PromptKind::GetLocalTime => "get_local_time"@,
        PromptKind::FileEdit => "file_edit"@,
        PromptKind::ReadFile => "read_file"@,
        PromptKind::ListDirectory => "list_directory"@,
        PromptKind::MoveOrRename => "move_or_rename"@,
        PromptKind::GetFileInfo => "get_file_info"@,
        PromptKind::CreateDirectory => "create_directory"@,
        PromptKind::OverwriteFile => "overwrite_file"@,
    }
}

/// What the list says a prompt is for.
pub open spec fn prompt_summary(kind: PromptKind) -> Seq<char> {
    match kind {
        PromptKind::CurrentTime => "Display current time in the city"@,
        PromptKind::GetLocalTime => "Get the current local time"@,
        PromptKind::FileEdit => "Make a targeted edit to a file"@,
        PromptKind::ReadFile => "Read contents of a file"@,
        PromptKind::ListDirectory => "List contents of a directory"@,
        PromptKind::MoveOrRename => "Move or rename a file or directory"@,
        PromptKind::GetFileInfo => "Get metadata about a file"@,
        PromptKind::CreateDirectory => "Create a new directory"@,
        PromptKind::OverwriteFile => "Overwrite contents of a file"@,
    }
}

/// The arguments that a prompt declares, each with what it is for; `None`
/// for a prompt that declares none. Every declared argument is required.
pub open spec fn prompt_arguments(kind: PromptKind) -> Option<Seq<(Seq<char>, Seq<char>)>> {
    match kind {
        PromptKind::CurrentTime => Some(
            seq![
                ("city"@, "city name"@),
            ],
        ),
        PromptKind::GetLocalTime => None,
        PromptKind::FileEdit => Some(
            seq![
                ("file_path"@, "Path to file to edit"@),
                ("commit_message"@, "Message describing the edit"@),
            ],
        ),
        PromptKind::ReadFile => Some(
            seq![
                ("file_path"@, "Path to file to read"@),
            ],
        ),
        PromptKind::ListDirectory => Some(
            seq![
                ("path"@, "Path to directory to list"@),
            ],
        ),
        PromptKind::MoveOrRename => Some(
            seq![
                ("source_path"@, "Source path to move/rename from"@),
                ("target_path"@, "Target path to move/rename to"@),
            ],
        ),
        PromptKind::GetFileInfo => Some(
            seq![
                ("path"@, "Path to file to get info about"@),
            ],
        ),
        PromptKind::CreateDirectory => Some(
            seq![
                ("path"@, "Path to directory to create"@),
            ],
        ),
        PromptKind::OverwriteFile => Some(
            seq![
                ("file_path"@, "Path to file to overwrite"@),
                ("content"@, "New content for the file"@),
            ],
        ),
    }
}

/// What a filled-in prompt says it is for.
pub open spec fn prompt_description(kind: PromptKind) -> Seq<char> {
    match kind {
        PromptKind::CurrentTime => "Get the current time in city"@,
        PromptKind::GetLocalTime => "Get the current local time"@,
        PromptKind::FileEdit => "Edit a file"@,
        PromptKind::ReadFile => "Read a file"@,
        PromptKind::ListDirectory => "List directory contents"@,
        PromptKind::MoveOrRename => "Move or rename file/directory"@,
        PromptKind::GetFileInfo => "Get file metadata"@,
        PromptKind::CreateDirectory => "Create directory"@,
        PromptKind::OverwriteFile => "Overwrite file"@,
    }
}

/// The prompt that `name` stands for, if it stands for one.
pub open spec fn prompt_named(name: Seq<char>) -> Option<PromptKind> {
    if name == prompt_name(PromptKind::CurrentTime) {
        Some(PromptKind::CurrentTime)
    } else if name == prompt_name(PromptKind::GetLocalTime) {
        Some(PromptKind::GetLocalTime)
    } else if name == prompt_name(PromptKind::FileEdit) {
        Some(PromptKind::FileEdit)
    } else if name == prompt_name(PromptKind::ReadFile) {
        Some(PromptKind::ReadFile)
    } else if name == prompt_name(PromptKind::ListDirectory) {
        Some(PromptKind::ListDirectory)
    } else if name == prompt_name(PromptKind::MoveOrRename) {
        Some(PromptKind::MoveOrRename)
    } else if name == prompt_name(PromptKind::GetFileInfo) {
        Some(PromptKind::GetFileInfo)
    } else if name == prompt_name(PromptKind::CreateDirectory) {
        Some(PromptKind::CreateDirectory)
    } else if name == prompt_name(PromptKind::OverwriteFile) {
        Some(PromptKind::OverwriteFile)
    } else {
        None
    }
}

/// The named arguments of a request; a request without arguments has none.
pub open spec fn argument_fields(arguments: Params) -> Seq<Param> {
    match arguments {
        Params::Fields(fields) => fields@,
        _ => seq![],
    }
}

/// The fault for an argument that is not there or is no text.
pub open spec fn bad(name: Seq<char>) -> Result<Seq<char>, PromptFault> {
    Err(PromptFault::BadArgument { name })
}

/// The text of the message that a prompt makes of `fields`, or the first
/// argument it reads that is not there or is no text.
pub open spec fn prompt_text(kind: PromptKind, fields: Seq<Param>) -> Result<
    Seq<char>,
    PromptFault,
> {
    match kind {
        PromptKind::CurrentTime => {
            let city = needed_text(fields, "city"@);
            if city is Err {
                bad("city"@)
            } else {
                Ok("What's the time of "@ + city->Ok_0 + "?"@)
            }
        },
        PromptKind::GetLocalTime => {
            Ok("What's the current local time?"@)
        },
        PromptKind::FileEdit => {
            let file_path = needed_text(fields, "file_path"@);
            let commit_message = needed_text(fields, "commit_message"@);
            if file_path is Err {
                bad("file_path"@)
            } else if commit_message is Err {
                bad("commit_message"@)
            } else {
                Ok("Edit file "@ + file_path->Ok_0 + " with message: "@ + commit_message->Ok_0)
            }
        },
        PromptKind::ReadFile => {
            let file_path = needed_text(fields, "file_path"@);
            if file_path is Err {
                bad("file_path"@)
            } else {
                Ok("Read file "@ + file_path->Ok_0)
            }
        },
        PromptKind::ListDirectory => {
            let path = needed_text(fields, "path"@);
            if path is Err {
                bad("path"@)
            } else {
                Ok("List contents of directory "@ + path->Ok_0)
            }
        },
        PromptKind::MoveOrRename => {
            let source_path = needed_text(fields, "source_path"@);
            let target_path = needed_text(fields, "target_path"@);
            if source_path is Err {
                bad("source_path"@)
            } else if target_path is Err {
                bad("target_path"@)
            } else {
                Ok("Move/rename "@ + source_path->Ok_0 + " to "@ + target_path->Ok_0)
            }
        },
        PromptKind::GetFileInfo => {
            let path = needed_text(fields, "path"@);
            if path is Err {
                bad("path"@)
            } else {
                Ok("Get info about file "@ + path->Ok_0)
            }
        },
        PromptKind::CreateDirectory => {
            let path = needed_text(fields, "path"@);
            if path is Err {
                bad("path"@)
            } else {
                Ok("Create directory "@ + path->Ok_0)
            }
        },
        PromptKind::OverwriteFile => {
            let file_path = needed_text(fields, "file_path"@);
            if file_path is Err {
                bad("file_path"@)
            } else {
                Ok("Overwrite file "@ + file_path->Ok_0 + " with new content"@)
            }
        },
    }
}

/// What asking for the prompt `name` with `arguments` comes to: the text of
/// its message, or the fault.
pub open spec fn prompt_outcome(name: Seq<char>, arguments: Params) -> Result<
    (PromptKind, Seq<char>),
    PromptFault,
> {
    match prompt_named(name) {
        None => Err(PromptFault::UnknownPrompt),
        Some(kind) => match prompt_text(kind, argument_fields(arguments)) {
            Ok(text) => Ok((kind, text)),
            Err(fault) => Err(fault),
        },
    }
}

/// Whether `result` is the one message of a user with `text`, under
/// `description`.
pub open spec fn is_prompt(result: PromptResult, description: Seq<char>, text: Seq<char>) -> bool {
    &&& result.description@ == description
    &&& result.messages is Some
    &&& result.messages->0@.len() == 1
    &&& result.messages->0@[0].role@ == "user"@
    &&& result.messages->0@[0].content.kind@ == "text"@
    &&& result.messages->0@[0].content.text@ == text
}

/// Whether `prompt` is the entry of the list for `kind`.
pub open spec fn lists(prompt: Prompt, kind: PromptKind) -> bool {
    &&& prompt.name@ == prompt_name(kind)
    &&& option_view(prompt.description) == Some(prompt_summary(kind))
    &&& match (prompt.arguments, prompt_arguments(kind)) {
        (None, None) => true,
        (Some(have), Some(want)) => have@.len() == want.len() && forall|k: int|
            0 <= k < want.len() ==> (#[trigger] have@[k]).name@ == want[k].0 && option_view(
                have@[k].description,
            ) == Some(want[k].1) && have@[k].required == Some(true),
        _ => false,
    }
}

/// The prompt that `name` names.
pub fn find_prompt(name: &str) -> (r: Option<PromptKind>)
    ensures
        r == prompt_named(name@),
{
    if same_text(name, "current_time") {
        Some(PromptKind::CurrentTime)
    } else if same_text(name, "get_local_time") {
        Some(PromptKind::GetLocalTime)
    } else if same_text(name, "file_edit") {
        Some(PromptKind::FileEdit)
    } else if same_text(name, "read_file") {
        Some(PromptKind::ReadFile)
    } else if same_text(name, "list_directory") {
        Some(PromptKind::ListDirectory)
    } else if same_text(name, "move_or_rename") {
        Some(PromptKind::MoveOrRename)
    } else if same_text(name, "get_file_info") {
        Some(PromptKind::GetFileInfo)
    } else if same_text(name, "create_directory") {
        Some(PromptKind::CreateDirectory)
    } else if same_text(name, "overwrite_file") {
        Some(PromptKind::OverwriteFile)
    } else {
        None
    }
}

fn argument(name: &str, description: &str) -> (a: PromptArgument)
    ensures
        a.name@ == name@,
        option_view(a.description) == Some(description@),
        a.required == Some(true),
{
    PromptArgument {
        name: name.to_owned(),
        description: Some(description.to_owned()),
        required: Some(true),
    }
}

fn entry(kind: PromptKind) -> (p: Prompt)
    ensures
        lists(p, kind),
{
    match kind {
        PromptKind::CurrentTime => {
            let mut arguments: Vec<PromptArgument> = Vec::new();
            arguments.push(argument("city", "city name"));
            Prompt {
                name: "current_time".to_owned(),
                description: Some("Display current time in the city".to_owned()),
                arguments: Some(arguments),
            }
        },
        PromptKind::GetLocalTime => {
            Prompt {
                name: "get_local_time".to_owned(),
                description: Some("Get the current local time".to_owned()),
                arguments: None,
            }
        },
        PromptKind::FileEdit => {
            let mut arguments: Vec<PromptArgument> = Vec::new();
            arguments.push(argument("file_path", "Path to file to edit"));
            arguments.push(argument("commit_message", "Message describing the edit"));
            Prompt {
                name: "file_edit".to_owned(),
                description: Some("Make a targeted edit to a file".to_owned()),
                arguments: Some(arguments),
            }
        },
        PromptKind::ReadFile => {
            let mut arguments: Vec<PromptArgument> = Vec::new();
            arguments.push(argument("file_path", "Path to file to read"));
            Prompt {
                name: "read_file".to_owned(),
                description: Some("Read contents of a file".to_owned()),
                arguments: Some(arguments),
            }
        },
        PromptKind::ListDirectory => {
            let mut arguments: Vec<PromptArgument> = Vec::new();
            arguments.push(argument("path", "Path to directory to list"));
            Prompt {
                name: "list_directory".to_owned(),
                description: Some("List contents of a directory".to_owned()),
                arguments: Some(arguments),
            }
        },
        PromptKind::MoveOrRename => {
            let mut arguments: Vec<PromptArgument> = Vec::new();
            arguments.push(argument("source_path", "Source path to move/rename from"));
            arguments.push(argument("target_path", "Target path to move/rename to"));
            Prompt {
                name: "move_or_rename".to_owned(),
                description: Some("Move or rename a file or directory".to_owned()),
                arguments: Some(arguments),
            }
        },
        PromptKind::GetFileInfo => {
            let mut arguments: Vec<PromptArgument> = Vec::new();
            arguments.push(argument("path", "Path to file to get info about"));
            Prompt {
                name: "get_file_info".to_owned(),
                description: Some("Get metadata about a file".to_owned()),
                arguments: Some(arguments),
            }
        },
        PromptKind::CreateDirectory => {
            let mut arguments: Vec<PromptArgument> = Vec::new();
            arguments.push(argument("path", "Path to directory to create"));
            Prompt {
                name: "create_directory".to_owned(),
                description: Some("Create a new directory".to_owned()),
                arguments: Some(arguments),
            }
        },
        PromptKind::OverwriteFile => {
            let mut arguments: Vec<PromptArgument> = Vec::new();
            arguments.push(argument("file_path", "Path to file to overwrite"));
            arguments.push(argument("content", "New content for the file"));
            Prompt {
                name: "overwrite_file".to_owned(),
                description: Some("Overwrite contents of a file".to_owned()),
                arguments: Some(arguments),
            }
        },
    }
}

/// The list of prompts: every prompt, in a fixed order.
pub fn prompts_list() -> (list: Vec<Prompt>)
    ensures
        list@.len() == all_prompts().len(),
        forall|k: int| 0 <= k < list@.len() ==> lists(#[trigger] list@[k], all_prompts()[k]),
{
    let mut list: Vec<Prompt> = Vec::new();
    list.push(entry(PromptKind::CurrentTime));
    list.push(entry(PromptKind::GetLocalTime));
    list.push(entry(PromptKind::FileEdit));
    list.push(entry(PromptKind::ReadFile));
    list.push(entry(PromptKind::ListDirectory));
    list.push(entry(PromptKind::MoveOrRename));
    list.push(entry(PromptKind::GetFileInfo));
    list.push(entry(PromptKind::CreateDirectory));
    list.push(entry(PromptKind::OverwriteFile));
    list
}

fn read_argument(fields: &Vec<Param>, name: &str) -> (r: Result<String, PromptError>)
    ensures
        match r {
            Ok(text) => needed_text(fields@, name@) == Ok::<
                Seq<char>,
                crate::dispatch::DispatchFault,
            >(text@),
            Err(e) => needed_text(fields@, name@) is Err && e@ == (PromptFault::BadArgument {
                name: name@,
            }),
        },
{
    match take_text(fields, name) {
        Ok(text) => Ok(text),
        Err(_) => Err(PromptError::BadArgument { name: name.to_owned() }),
    }
}

/// The text of the message that the prompt makes of `fields`.
pub fn fill_prompt(kind: PromptKind, fields: &Vec<Param>) -> (r: Result<String, PromptError>)
    ensures
        match r {
            Ok(text) => prompt_text(kind, fields@) == Ok::<Seq<char>, PromptFault>(text@),
            Err(e) => prompt_text(kind, fields@) == Err::<Seq<char>, PromptFault>(e@),
        },
{
    match kind {
        PromptKind::CurrentTime => {
            let city = match read_argument(fields, "city") {
                Ok(v) => v,
                Err(e) => return Err(e),
            };
            let t0 = appended("What's the time of ", city.as_str());
            let t1 = appended(t0.as_str(), "?");
            Ok(t1)
        },
        PromptKind::GetLocalTime => {
            Ok("What's the current local time?".to_owned())
        },
        PromptKind::FileEdit => {
            let file_path = match read_argument(fields, "file_path") {
                Ok(v) => v,
                Err(e) => return Err(e),
            };
            let commit_message = match read_argument(fields, "commit_message") {
                Ok(v) => v,
                Err(e) => return Err(e),
            };
            let t0 = appended("Edit file ", file_path.as_str());
            let t1 = appended(t0.as_str(), " with message: ");
            let t2 = appended(t1.as_str(), commit_message.as_str());
            Ok(t2)
        },
        PromptKind::ReadFile => {
            let file_path = match read_argument(fields, "file_path") {
                Ok(v) => v,
                Err(e) => return Err(e),
            };
            let t0 = appended("Read file ", file_path.as_str());
            Ok(t0)
        },
        PromptKind::ListDirectory => {
            let path = match read_argument(fields, "path") {
                Ok(v) => v,
                Err(e) => return Err(e),
            };
            let t0 = appended("List contents of directory ", path.as_str());
            Ok(t0)
        },
        PromptKind::MoveOrRename => {
            let source_path = match read_argument(fields, "source_path") {
                Ok(v) => v,
                Err(e) => return Err(e),
            };
            let target_path = match read_argument(fields, "target_path") {
                Ok(v) => v,
                Err(e) => return Err(e),
            };
            let t0 = appended("Move/rename ", source_path.as_str());
            let t1 = appended(t0.as_str(), " to ");
            let t2 = appended(t1.as_str(), target_path.as_str());
            Ok(t2)
        },
        PromptKind::GetFileInfo => {
            let path = match read_argument(fields, "path") {
                Ok(v) => v,
                Err(e) => return Err(e),
            };
            let t0 = appended("Get info about file ", path.as_str());
            Ok(t0)
        },
        PromptKind::CreateDirectory => {
            let path = match read_argument(fields, "path") {
                Ok(v) => v,
                Err(e) => return Err(e),
            };
            let t0 = appended("Create directory ", path.as_str());
            Ok(t0)
        },
        PromptKind::OverwriteFile => {
            let file_path = match read_argument(fields, "file_path") {
                Ok(v) => v,
                Err(e) => return Err(e),
            };
            let t0 = appended("Overwrite file ", file_path.as_str());
            let t1 = appended(t0.as_str(), " with new content");
            Ok(t1)
        },
    }
}

fn description_of(kind: PromptKind) -> (d: &'static str)
    ensures
        d@ == prompt_description(kind),
{
    match kind {
        PromptKind::CurrentTime => "Get the current time in city",
        PromptKind::GetLocalTime => "Get the current local time",
        PromptKind::FileEdit => "Edit a file",
        PromptKind::ReadFile => "Read a file",
        PromptKind::ListDirectory => "List directory contents",
        PromptKind::MoveOrRename => "Move or rename file/directory",
        PromptKind::GetFileInfo => "Get file metadata",
        PromptKind::CreateDirectory => "Create directory",
        PromptKind::OverwriteFile => "Overwrite file",
    }
}

/// Fill in the prompt called `name` with `arguments`.
///
/// A name that no prompt has is refused as such. A prompt reads its
/// arguments in the order of their use; the first that is not there, or is
/// no text, is named in the error.
pub fn prompts_get(name: &str, arguments: &Params) -> (r: Result<PromptResult, PromptError>)
    ensures
        match r {
            Ok(result) => prompt_outcome(name@, *arguments) is Ok && is_prompt(
                result,
                prompt_description(prompt_outcome(name@, *arguments)->Ok_0.0),
                prompt_outcome(name@, *arguments)->Ok_0.1,
            ),
            Err(e) => prompt_outcome(name@, *arguments) == Err::<
                (PromptKind, Seq<char>),
                PromptFault,
            >(e@),
        },
{
    let kind = match find_prompt(name) {
        Some(kind) => kind,
        None => return Err(PromptError::UnknownPrompt),
    };
    let none: Vec<Param> = Vec::new();
    let fields: &Vec<Param> = match arguments {
        Params::Fields(fields) => fields,
        _ => &none,
    };
    let text = match fill_prompt(kind, fields) {
        Ok(text) => text,
        Err(e) => return Err(e),
    };
    let mut messages: Vec<PromptMessage> = Vec::new();
    messages.push(
        PromptMessage {
            role: "user".to_owned(),
            content: PromptMessageContent { kind: "text".to_owned(), text },
        },
    );
    Ok(PromptResult { description: description_of(kind).to_owned(), messages: Some(messages) })
}

} // verus!
