//! The failures the orchestrator knows of, and how each reads.

use vstd::prelude::*;

verus! {

/// A failure of the conversation, by kind.
#[derive(Debug)]
pub enum AgentError {
    /// Reading external input failed.
    UserInputError(String),
    /// The backend reports that the credential expired.
    ExpiredCredential,
    /// Any other failure that the backend reports.
    BackendError(String),
    /// A function call names a tool that is not registered.
    ToolNotFound(String),
    /// A tool's execution failed.
    ToolExecutionError(String),
}

impl AgentError {
    /// Fatal kinds end the session; the others are fed back into the conversation.
    pub open spec fn spec_is_fatal(&self) -> bool {
        self is UserInputError || self is ExpiredCredential
    }

    pub open spec fn spec_describe(&self) -> Seq<char> {
        match self {
            AgentError::UserInputError(m) => "UserInputError: "@ + m@,
            AgentError::ExpiredCredential => "ExpiredCredential"@,
            AgentError::BackendError(m) => "BackendError: "@ + m@,
            AgentError::ToolNotFound(m) => "ToolNotFound: "@ + m@,
            AgentError::ToolExecutionError(m) => "ToolExecutionError: "@ + m@,
        }
    }

    #[verifier::when_used_as_spec(spec_is_fatal)]
    pub fn is_fatal(&self) -> (r: bool)
        ensures
            r == self.spec_is_fatal(),
    {
        match self {
            AgentError::UserInputError(_) => true,
            AgentError::ExpiredCredential => true,
            _ => false,
        }
    }

    /// A one-line description of the failure.
    pub fn describe(&self) -> (r: String)
        ensures
            r@ == self.spec_describe(),
    {
        match self {
            AgentError::UserInputError(m) => {
                let mut r = "UserInputError: ".to_string();
                r.append(m.as_str());
                r
            },
            AgentError::ExpiredCredential => "ExpiredCredential".to_string(),
            AgentError::BackendError(m) => {
                let mut r = "BackendError: ".to_string();
                r.append(m.as_str());
                r
            },
            AgentError::ToolNotFound(m) => {
                let mut r = "ToolNotFound: ".to_string();
                r.append(m.as_str());
                r
            },
            AgentError::ToolExecutionError(m) => {
                let mut r = "ToolExecutionError: ".to_string();
                r.append(m.as_str());
                r
            },
        }
    }
}

/// A failure that a tool reports from its execution.
#[derive(Debug)]
pub enum ToolError {
    FileNotFound(String),
    ListFile(String),
    ToolError(String),
}

impl ToolError {
    pub open spec fn spec_describe(&self) -> Seq<char> {
        match self {
            ToolError::FileNotFound(m) => "File not found: "@ + m@,
            ToolError::ListFile(m) => "List file error: "@ + m@,
            ToolError::ToolError(m) => "Tool error: "@ + m@,
        }
    }

    /// A one-line description of the failure.
    pub fn describe(&self) -> (r: String)
        ensures
            r@ == self.spec_describe(),
    {
        let (mut r, m) = match self {
            ToolError::FileNotFound(m) => ("File not found: ".to_string(), m),
            ToolError::ListFile(m) => ("List file error: ".to_string(), m),
            ToolError::ToolError(m) => ("Tool error: ".to_string(), m),
        };
        r.append(m.as_str());
        r
    }
}

} // verus!
