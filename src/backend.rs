//! What the orchestrator reads of the model backend: where requests go, and how
//! a reply is turned into turns or a classified failure.

use vstd::prelude::*;
use crate::content::Content;
use crate::errors::AgentError;
use crate::text::{contains_text, occurs_in};
use crate::tools::ToolDefinition;

verus! {

pub const API_URL: &'static str = "https://generativelanguage.googleapis.com/v1beta/models/";

pub const MODEL: &'static str = "gemini-2.0-flash-001";

/// The text by which the backend says that the credential expired.
pub const EXPIRED_KEY_MESSAGE: &'static str = "API key expired.";

/// The error envelope of a backend reply.
#[derive(Debug)]
pub struct GeminiError {
    pub code: i64,
    pub message: String,
    pub status: String,
    pub details: Vec<Detail>,
}

#[derive(Debug)]
pub struct Detail {
    pub type_field: String,
    pub reason: Option<String>,
    pub domain: Option<String>,
    pub metadata: Option<Metadata>,
    pub locale: Option<String>,
    pub message: Option<String>,
}

#[derive(Debug)]
pub struct Metadata {
    pub service: String,
}

/// Token accounting that the backend attaches to a reply.
#[derive(Debug)]
pub struct UsageMetadata {
    pub prompt_token_count: i64,
    pub candidates_token_count: i64,
    pub total_token_count: i64,
    pub prompt_tokens_details: Vec<PromptTokensDetail>,
    pub candidates_tokens_details: Vec<CandidatesTokensDetail>,
}

#[derive(Debug)]
pub struct PromptTokensDetail {
    pub modality: String,
    pub token_count: i64,
}

#[derive(Debug)]
pub struct CandidatesTokensDetail {
    pub modality: String,
    pub token_count: i64,
}

/// The tools declared with a request.
#[derive(Debug)]
pub struct GeminiTool {
    pub function_declarations: Vec<ToolDefinition>,
}

impl GeminiTool {
    /// A declaration of the single tool `definition`.
    pub fn new(definition: ToolDefinition) -> (r: Self)
        ensures
            r.function_declarations@ == seq![definition],
    {
        let mut function_declarations: Vec<ToolDefinition> = Vec::new();
        function_declarations.push(definition);
        GeminiTool { function_declarations }
    }
}

/// A content-generation request: the conversation so far and the declared tools.
#[derive(Debug)]
pub struct Prompt {
    pub contents: Vec<Content>,
    pub tools: Vec<GeminiTool>,
}

impl Prompt {
    pub fn new(contents: Vec<Content>, tools: GeminiTool) -> (r: Self)
        ensures
            r.contents == contents,
            r.tools@ == seq![tools],
    {
        let mut all: Vec<GeminiTool> = Vec::new();
        all.push(tools);
        Prompt { contents, tools: all }
    }
}

/// The address of a content-generation request made with `api_key`.
pub open spec fn spec_request_url(api_key: Seq<char>) -> Seq<char> {
    API_URL@ + MODEL@ + ":generateContent?key="@ + api_key
}

pub fn request_url(api_key: &str) -> (r: String)
    ensures
        r@ == spec_request_url(api_key@),
{
    let mut r = API_URL.to_string();
    r.append(MODEL);
    r.append(":generateContent?key=");
    r.append(api_key);
    r
}

/// The kind of a failure that the backend reports with `message`.
pub open spec fn classified(message: String) -> AgentError {
    if occurs_in(message@, EXPIRED_KEY_MESSAGE@) {
        AgentError::ExpiredCredential
    } else {
        AgentError::BackendError(message)
    }
}

/// An expired credential is recognised by its message; any other reported
/// failure is a backend error that carries the message.
pub fn classify_backend_error(message: String) -> (r: AgentError)
    ensures
        r == classified(message),
{
    if contains_text(message.as_str(), EXPIRED_KEY_MESSAGE) {
        AgentError::ExpiredCredential
    } else {
        AgentError::BackendError(message)
    }
}

/// The turns of a reply, or the failure that it reports. A reply with an error
/// envelope is that failure, whatever else it holds; a reply without
/// candidates holds no turns.
pub fn interpret_reply(error: Option<GeminiError>, candidates: Option<Vec<Content>>) -> (r: Result<
    Vec<Content>,
    AgentError,
>)
    ensures
        match error {
            Some(e) => r == Err::<Vec<Content>, AgentError>(classified(e.message)),
            None => match candidates {
                Some(c) => r == Ok::<Vec<Content>, AgentError>(c),
                None => r matches Ok(v) && v@.len() == 0,
            },
        },
{
    match error {
        Some(e) => Err(classify_backend_error(e.message)),
        None => match candidates {
            Some(c) => Ok(c),
            None => Ok(Vec::new()),
        },
    }
}

} // verus!
