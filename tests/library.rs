use voo::backend::{classify_backend_error, interpret_reply, request_url, GeminiError};
use voo::content::{AgentRole, Content, Part};
use voo::errors::{AgentError, ToolError};
use voo::file_tools::{listing_text, DirEntryInfo, ListFileInput};
use voo::history::ConversationHistory;
use voo::input::InputReader;
use voo::retry::{RetryDecision, RetryPolicy};
use voo::text::{contains_text, starts_with_text};
use voo::tools::{Parameters, ToolDefinition, ToolRegistry};

#[derive(Debug)]
struct MockInputReader;

impl InputReader for MockInputReader {
    fn read(&self) -> Result<String, AgentError> {
        Ok("test input".to_string())
    }
}

#[test]
fn test_get_user_input() {
    let reader: Box<dyn InputReader> = Box::new(MockInputReader {});
    let input = "test input";
    let result = reader.read();
    assert_eq!(result.unwrap(), input);
}

fn definition(name: &str, description: &str) -> ToolDefinition {
    ToolDefinition {
        name: name.to_string(),
        description: description.to_string(),
        parameters: Parameters {
            type_field: "object".to_string(),
            properties: serde_json::Value::Null,
            required: Vec::new(),
        },
    }
}

#[test]
fn snapshot_after_append_ends_with_turn() {
    let mut h = ConversationHistory::new(vec![Content::new(vec![Part::new("first")], AgentRole::Model)]);
    h.append(Content::new(vec![Part::new("second")], AgentRole::User));
    let snap = h.snapshot();
    assert_eq!(snap.len(), 2);
    assert_eq!(snap[0].parts[0].text.as_deref(), Some("first"));
    assert_eq!(snap[1].parts[0].text.as_deref(), Some("second"));
    assert_eq!(snap[1].role, AgentRole::User);
    h.append(Content::new(Vec::new(), AgentRole::Model));
    assert_eq!(snap.len(), 2);
    assert_eq!(h.snapshot().len(), 3);
}

#[test]
fn register_twice_last_wins() {
    let mut r: ToolRegistry<u32> = ToolRegistry::new();
    r.register(definition("t", "first"), 1);
    r.register(definition("u", "other"), 2);
    r.register(definition("t", "second"), 3);
    assert_eq!(r.len(), 2);
    let e = r.lookup(&"t".to_string()).unwrap();
    assert_eq!(e.definition.description, "second");
    assert_eq!(e.tool, 3);
    let names: Vec<String> = r.definitions().iter().map(|d| d.name.clone()).collect();
    assert_eq!(names.iter().filter(|n| n.as_str() == "t").count(), 1);
    assert!(r.lookup(&"v".to_string()).is_none());
    assert!(r.contains(&"u".to_string()));
    assert!(!r.contains(&"v".to_string()));
}

#[test]
fn empty_registry() {
    let r: ToolRegistry<()> = ToolRegistry::new();
    assert_eq!(r.len(), 0);
    assert!(r.definitions().is_empty());
}

#[test]
fn other_backend_errors_keep_message() {
    match classify_backend_error("Quota exceeded.".to_string()) {
        AgentError::BackendError(m) => assert_eq!(m, "Quota exceeded."),
        other => panic!("unexpected {:?}", other),
    }
    assert!(matches!(classify_backend_error("API key expired.".to_string()), AgentError::ExpiredCredential));
    assert!(matches!(classify_backend_error("API key expired".to_string()), AgentError::BackendError(_)));
}

#[test]
fn reply_without_error_gives_candidates() {
    let turns = vec![Content::new(vec![Part::new("hi")], AgentRole::Model)];
    let r = interpret_reply(None, Some(turns)).unwrap();
    assert_eq!(r.len(), 1);
    assert!(interpret_reply(None, None).unwrap().is_empty());
    let e = GeminiError { code: 500, message: "boom".to_string(), status: "INTERNAL".to_string(), details: Vec::new() };
    let turns = vec![Content::new(vec![Part::new("ignored")], AgentRole::Model)];
    assert!(matches!(interpret_reply(Some(e), Some(turns)), Err(AgentError::BackendError(ref m)) if m == "boom"));
}

#[test]
fn request_url_is_exact() {
    assert_eq!(
        request_url("k123"),
        "https://generativelanguage.googleapis.com/v1beta/models/gemini-2.0-flash-001:generateContent?key=k123"
    );
}

#[test]
fn text_search() {
    assert!(contains_text("the API key expired. now", "API key expired."));
    assert!(!contains_text("API key", "API key expired."));
    assert!(contains_text("abc", ""));
    assert!(contains_text("", ""));
    assert!(contains_text("aab", "ab"));
    assert!(starts_with_text("exit now", "exit"));
    assert!(!starts_with_text("exi", "exit"));
    assert!(!starts_with_text(" exit", "exit"));
}

#[test]
fn listing_marks_directories() {
    let entries = vec![
        DirEntryInfo { path: "./a.txt".to_string(), is_dir: false },
        DirEntryInfo { path: "./src".to_string(), is_dir: true },
        DirEntryInfo { path: "./b.txt".to_string(), is_dir: false },
    ];
    assert_eq!(listing_text(&entries), "./a.txt, ./src/, ./b.txt");
    assert_eq!(listing_text(&Vec::new()), "");
    assert_eq!(ListFileInput::default().input.path, ".");
}

#[test]
fn error_descriptions() {
    assert_eq!(AgentError::UserInputError("eof".to_string()).describe(), "UserInputError: eof");
    assert_eq!(AgentError::ExpiredCredential.describe(), "ExpiredCredential");
    assert_eq!(AgentError::BackendError("x".to_string()).describe(), "BackendError: x");
    assert_eq!(AgentError::ToolNotFound("t".to_string()).describe(), "ToolNotFound: t");
    assert_eq!(AgentError::ToolExecutionError("r".to_string()).describe(), "ToolExecutionError: r");
    assert!(AgentError::ExpiredCredential.is_fatal());
    assert!(AgentError::UserInputError(String::new()).is_fatal());
    assert!(!AgentError::BackendError(String::new()).is_fatal());
    assert_eq!(ToolError::FileNotFound("p".to_string()).describe(), "File not found: p");
    assert_eq!(ToolError::ListFile("p".to_string()).describe(), "List file error: p");
    assert_eq!(ToolError::ToolError("m".to_string()).describe(), "Tool error: m");
}

#[test]
fn retry_budget() {
    let mut p = RetryPolicy::new(2, 5);
    assert_eq!(p.record_failure(), RetryDecision::Retry);
    assert_eq!(p.attempts(), 1);
    assert_eq!(p.record_failure(), RetryDecision::Exhausted);
    assert_eq!(p.attempts(), 0);
    let mut one = RetryPolicy::new(1, 0);
    assert_eq!(one.record_failure(), RetryDecision::Exhausted);
    let d = RetryPolicy::default();
    assert_eq!((d.max_retry(), d.delay_ms(), d.attempts()), (3, 1000, 0));
}

#[test]
fn content_constructors() {
    let c = Content::from_text("hello".to_string(), AgentRole::User);
    assert_eq!(c.parts.len(), 1);
    assert_eq!(c.parts[0].text.as_deref(), Some("hello"));
    assert!(c.parts[0].function_call.is_none());
    let d = c.clone();
    assert_eq!(d.parts[0].text.as_deref(), Some("hello"));
    assert_eq!(d.role, AgentRole::User);
}
