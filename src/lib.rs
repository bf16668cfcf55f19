//! Core of a conversational agent: the turn data model, an append-only
//! conversation history, a tool registry, a bounded retry policy and the
//! orchestration state machine that dispatches model-requested tool calls.

pub mod json;
pub mod content;
pub mod history;
pub mod errors;
pub mod tools;
pub mod text;
pub mod backend;
pub mod retry;
pub mod orchestrator;
pub mod loop_lemmas;
pub mod file_tools;
pub mod input;
