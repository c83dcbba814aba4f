//! The resources that the server offers: one, the list of the allowed
//! directories as a JSON text.
use crate::registry::{config_fields, split_config};
use crate::text::{option_view, same_text, views};
use vstd::prelude::*;

verus! {

/// A parsed URL of the `url` crate. Nothing of its inside is known here.
#[verifier::external_type_specification]
#[verifier::external_body]
pub struct ExUrl(url::Url);

/// The reason why the `url` crate could not parse a text.
#[verifier::external_type_specification]
#[verifier::external_body]
pub struct ExUrlParseError(url::ParseError);

/// The reason why `serde_json` could not encode or decode a value.
#[verifier::external_type_specification]
#[verifier::external_body]
pub struct ExJsonError(serde_json::Error);

/// `url::Url::parse` parses an absolute URL out of a text, or says why it
/// cannot. Nothing is claimed of which texts it takes.
pub assume_specification[ url::Url::parse ](input: &str) -> (r: Result<url::Url, url::ParseError>);

/// `url::Url::path` gives the path of a URL. Nothing is claimed of the text
/// that it gives.
pub assume_specification<'a>[ url::Url::path ](uri: &'a url::Url) -> (r: &'a str);

/// The JSON text that `serde_json::to_string_pretty` writes for a list of
/// texts.
pub uninterp spec fn pretty_json(items: Seq<Seq<char>>) -> Seq<char>;

/// `serde_json::to_string_pretty` on a list of texts: where it gives a text,
/// the text is a function of the list alone. That it gives one is not
/// claimed.
#[verifier::external_body]
fn encode_pretty(items: &Vec<String>) -> (r: Result<String, serde_json::Error>)
    ensures
        r matches Ok(text) ==> text@ == pretty_json(views(items@)),
{
    serde_json::to_string_pretty(items)
}

/// One resource as the server lists it.
#[derive(Debug)]
pub struct Resource {
    pub uri: url::Url,
    pub name: String,
    pub description: Option<String>,
    pub mime_type: Option<String>,
}

/// What reading a resource hands back.
#[derive(Debug)]
pub struct ResourceContent {
    pub uri: url::Url,
    pub mime_type: Option<String>,
    pub text: Option<String>,
    pub blob: Option<String>,
}

/// Why a resource could not be had.
#[derive(Debug, Clone, Copy, PartialEq, Eq, Structural)]
pub enum ResourceError {
    /// No resource stands at this path.
    NotFound,
    /// The address of a resource could not be parsed.
    InvalidUri,
    /// The content could not be written as JSON.
    Encoding,
}

/// The code under which a resource error is reported: that of parameters
/// that are not valid, where no resource stands at the path.
pub open spec fn resource_fault_code(e: ResourceError) -> int {
    match e {
        ResourceError::NotFound => -32602,
        _ => -32603,
    }
}

impl ResourceError {
    /// The code under which the error is reported.
    pub fn code(&self) -> (c: i32)
        ensures
            c == resource_fault_code(*self),
    {
        match self {
            ResourceError::NotFound => -32602,
            _ => -32603,
        }
    }

    /// The message with which the error is reported.
    pub fn message(&self) -> (m: &'static str)
        ensures
            m@ == (match *self {
                ResourceError::NotFound => "Resource not found"@,
                ResourceError::InvalidUri => "Invalid resource address"@,
                ResourceError::Encoding => "Resource could not be encoded"@,
            }),
    {
        match self {
            ResourceError::NotFound => "Resource not found",
            ResourceError::InvalidUri => "Invalid resource address",
            ResourceError::Encoding => "Resource could not be encoded",
        }
    }
}

/// The path under which the list of allowed directories is read.
pub open spec fn directories_path() -> Seq<char> {
    "/api/allowed_directories"@
}

/// Whether `content` is a JSON resource at `uri` with the text `text`.
pub open spec fn is_json_content(content: ResourceContent, uri: url::Url, text: Seq<char>) -> bool {
    &&& content.uri == uri
    &&& option_view(content.mime_type) == Some("application/json"@)
    &&& option_view(content.text) == Some(text)
    &&& content.blob is None
}

/// The content of the list of allowed directories, from what the encoder
/// made of it: the text as a JSON resource at `uri`, or an error where the
/// encoder gave none.
pub fn directories_content(uri: url::Url, encoded: Result<String, serde_json::Error>) -> (r:
    Result<ResourceContent, ResourceError>)
    ensures
        match encoded {
            Ok(text) => r is Ok && is_json_content(r->Ok_0, uri, text@),
            Err(_) => r == Err::<ResourceContent, ResourceError>(ResourceError::Encoding),
        },
{
    match encoded {
        Ok(text) => Ok(
            ResourceContent {
                uri,
                mime_type: Some("application/json".to_owned()),
                text: Some(text),
                blob: None,
            },
        ),
        Err(_) => Err(ResourceError::Encoding),
    }
}

/// The resource at `path`, for a request that named it by `uri`. Only the
/// list of allowed directories can be read: it holds every field of the
/// configuration value, the empty ones too.
pub fn read_at(path: &str, uri: url::Url, config: &str) -> (r: Result<
    ResourceContent,
    ResourceError,
>)
    ensures
        path@ != directories_path() ==> r == Err::<ResourceContent, ResourceError>(
            ResourceError::NotFound,
        ),
        path@ == directories_path() ==> match r {
            Ok(content) => is_json_content(content, uri, pretty_json(config_fields(config@))),
            Err(e) => e == ResourceError::Encoding,
        },
{
    if same_text(path, "/api/allowed_directories") {
        let fields = split_config(config);
        directories_content(uri, encode_pretty(&fields))
    } else {
        Err(ResourceError::NotFound)
    }
}

/// Read the resource that `uri` names. What the path of `uri` is lies with
/// the `url` crate; what is read at that path, `read_at` says.
pub fn resource_read(uri: url::Url, config: &str) -> (r: Result<ResourceContent, ResourceError>)
    ensures
        match r {
            Ok(content) => is_json_content(content, uri, pretty_json(config_fields(config@))),
            Err(e) => e == ResourceError::NotFound || e == ResourceError::Encoding,
        },
{
    let path = uri.path().to_owned();
    read_at(path.as_str(), uri, config)
}

/// The list of allowed directories as a resource.
pub fn allowed_directories(config: &str) -> (r: Result<ResourceContent, ResourceError>)
    ensures
        match r {
            Ok(content) => option_view(content.text) == Some(pretty_json(config_fields(config@)))
                && option_view(content.mime_type) == Some("application/json"@)
                && content.blob is None,
            Err(e) => e == ResourceError::InvalidUri || e == ResourceError::Encoding,
        },
{
    match url::Url::parse("file:///api/allowed_directories") {
        Ok(uri) => {
            let fields = split_config(config);
            directories_content(uri, encode_pretty(&fields))
        },
        Err(_) => Err(ResourceError::InvalidUri),
    }
}

/// The resources that the server offers.
pub fn resources_list() -> (r: Result<Vec<Resource>, ResourceError>)
    ensures
        match r {
            Ok(list) => list@.len() == 1 && list@[0].name@ == "Allowed Directories"@
                && option_view(list@[0].description) == Some(
                "List of directories that can be accessed"@,
            ) && option_view(list@[0].mime_type) == Some("application/json"@),
            Err(e) => e == ResourceError::InvalidUri,
        },
{
    match url::Url::parse("file:///api/allowed_directories") {
        Ok(uri) => {
            let mut list: Vec<Resource> = Vec::new();
            list.push(
                Resource {
                    uri,
                    name: "Allowed Directories".to_owned(),
                    description: Some("List of directories that can be accessed".to_owned()),
                    mime_type: Some("application/json".to_owned()),
                },
            );
            Ok(list)
        },
        Err(_) => Err(ResourceError::InvalidUri),
    }
}

} // verus!
