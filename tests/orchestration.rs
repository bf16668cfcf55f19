use voo::content::{AgentRole, Content, FunctionCall, Part};
use voo::errors::{AgentError, ToolError};
use voo::history::ConversationHistory;
use voo::orchestrator::{Failure, Orchestrator, Phase, Request, EXIT_COMMAND};
use voo::retry::RetryPolicy;
use voo::tools::{Parameters, ToolDefinition, ToolRegistry};

fn definition(name: &str, description: &str) -> ToolDefinition {
    ToolDefinition {
        name: name.to_string(),
        description: description.to_string(),
        parameters: Parameters {
            type_field: "object".to_string(),
            properties: serde_json::from_str("{\"path\":{\"type\":\"string\"}}").unwrap(),
            required: vec!["path".to_string()],
        },
    }
}

fn call(name: &str, args: &str) -> FunctionCall {
    FunctionCall { name: name.to_string(), args: serde_json::from_str(args).unwrap() }
}

fn call_turn(calls: Vec<FunctionCall>) -> Content {
    Content::new(calls.into_iter().map(Part::from_call).collect(), AgentRole::Model)
}

fn text_reply(text: &str) -> Content {
    Content::new(vec![Part::new(text)], AgentRole::Model)
}

fn text_of(c: &Content) -> String {
    c.parts[0].text.clone().unwrap()
}

fn setup() -> (Orchestrator, ConversationHistory, ToolRegistry<&'static str>) {
    let orchestrator = Orchestrator::new(RetryPolicy::default(), EXIT_COMMAND.to_string());
    let history = ConversationHistory::new(Vec::new());
    let mut tools = ToolRegistry::new();
    tools.register(definition("list_files", "List the files of a path."), "lister");
    (orchestrator, history, tools)
}

#[test]
fn list_files_scenario() {
    let (mut o, mut h, tools) = setup();
    let step = o.on_input(&mut h, "list files in .".to_string());
    assert!(matches!(step.request, Request::QueryModel));
    assert_eq!(h.len(), 1);

    let reply = vec![call_turn(vec![call("list_files", "{\"path\":\".\"}")])];
    let step = o.on_model_reply(&mut h, &tools, reply);
    assert_eq!(o.phase(), Phase::DispatchTools);
    match &step.request {
        Request::RunTool(c) => {
            assert_eq!(c.name, "list_files");
            assert_eq!(c.args, serde_json::from_str::<serde_json::Value>("{\"path\":\".\"}").unwrap());
            assert_eq!(tools.lookup(&c.name).unwrap().tool, "lister");
        }
        other => panic!("expected a tool run, got {:?}", other),
    }
    assert!(step.shown.is_empty());

    let step = o.on_tool_result(&mut h, &tools, Ok("a.txt, b.txt".to_string()));
    assert!(matches!(step.request, Request::QueryModel));
    assert_eq!(o.phase(), Phase::QueryModel);
    let log = h.snapshot();
    assert_eq!(log.len(), 3);
    assert_eq!(log[1].role, AgentRole::Model);
    assert_eq!(log[1].parts[0].function_call.as_ref().unwrap().name, "list_files");
    assert_eq!(log[2].role, AgentRole::User);
    assert_eq!(text_of(&log[2]), "\"a.txt, b.txt\"");

    let step = o.on_model_reply(&mut h, &tools, vec![text_reply("Found 2 files.")]);
    assert!(matches!(step.request, Request::ReadInput));
    assert_eq!(step.shown, vec!["Found 2 files.".to_string()]);
    assert!(step.failure.is_none());
    assert_eq!(o.phase(), Phase::AwaitingInput);
    let log = h.snapshot();
    assert_eq!(log.len(), 4);
    assert_eq!(text_of(&log[3]), "Found 2 files.");
    assert_eq!(log[3].role, AgentRole::User);
}

#[test]
fn expired_key_terminates() {
    let (mut o, mut h, _tools) = setup();
    o.on_input(&mut h, "hello".to_string());
    let err = voo::backend::interpret_reply(
        Some(voo::backend::GeminiError {
            code: 400,
            message: "API key expired. Please renew the API key.".to_string(),
            status: "INVALID_ARGUMENT".to_string(),
            details: Vec::new(),
        }),
        None,
    )
    .unwrap_err();
    assert!(matches!(err, AgentError::ExpiredCredential));
    let step = o.on_model_error(&mut h, err);
    assert!(matches!(step.request, Request::Stop));
    assert!(matches!(step.failure, Some(Failure::Agent(AgentError::ExpiredCredential))));
    assert_eq!(o.phase(), Phase::Terminated);
    assert_eq!(h.len(), 1);
}

#[test]
fn two_rounds_then_text() {
    let (mut o, mut h, tools) = setup();
    o.on_input(&mut h, "go".to_string());
    let start = h.len();

    let reply = vec![call_turn(vec![call("list_files", "{\"path\":\"a\"}"), call("list_files", "{\"path\":\"b\"}")])];
    let step = o.on_model_reply(&mut h, &tools, reply);
    assert!(matches!(step.request, Request::RunTool(_)));
    let step = o.on_tool_result(&mut h, &tools, Ok("x".to_string()));
    assert!(matches!(step.request, Request::RunTool(_)));
    let step = o.on_tool_result(&mut h, &tools, Ok("y".to_string()));
    assert!(matches!(step.request, Request::QueryModel));
    assert_eq!(h.len(), start + 3);

    let step = o.on_model_reply(&mut h, &tools, vec![call_turn(vec![call("list_files", "{}")])]);
    assert!(matches!(step.request, Request::RunTool(_)));
    let step = o.on_tool_result(&mut h, &tools, Ok("z".to_string()));
    assert!(matches!(step.request, Request::QueryModel));
    assert_eq!(h.len(), start + 5);

    let step = o.on_model_reply(&mut h, &tools, vec![text_reply("done")]);
    assert!(matches!(step.request, Request::ReadInput));
    assert_eq!(o.phase(), Phase::AwaitingInput);
    assert_eq!(h.len(), start + 6);
}

#[test]
fn empty_reply_returns_to_input() {
    let (mut o, mut h, tools) = setup();
    o.on_input(&mut h, "hi".to_string());
    let step = o.on_model_reply(&mut h, &tools, vec![Content::new(Vec::new(), AgentRole::Model)]);
    assert!(matches!(step.request, Request::ReadInput));
    assert!(step.shown.is_empty());
    assert!(step.failure.is_none());
    assert_eq!(o.phase(), Phase::AwaitingInput);
    assert_eq!(h.len(), 1);

    o.on_input(&mut h, "again".to_string());
    let step = o.on_model_reply(&mut h, &tools, Vec::new());
    assert!(matches!(step.request, Request::ReadInput));
    assert_eq!(h.len(), 2);
}

#[test]
fn failing_tool_tried_max_retry_times() {
    let (mut o, mut h, tools) = setup();
    o.on_input(&mut h, "list".to_string());
    let step = o.on_model_reply(&mut h, &tools, vec![call_turn(vec![call("list_files", "{}")])]);
    assert!(matches!(step.request, Request::RunTool(_)));
    let before = h.len();
    let mut runs = 1;
    loop {
        let step = o.on_tool_result(&mut h, &tools, Err(ToolError::ListFile("denied".to_string())));
        match step.request {
            Request::Wait(ms) => {
                assert_eq!(ms, 1000);
                assert_eq!(o.phase(), Phase::Recovering);
                assert_eq!(h.len(), before);
                let again = o.on_delay_elapsed(&mut h, &tools);
                assert!(matches!(again.request, Request::RunTool(_)));
                runs += 1;
            }
            Request::ReadInput => break,
            other => panic!("unexpected request {:?}", other),
        }
        assert!(runs <= 3);
    }
    assert_eq!(runs, 3);
    assert_eq!(o.phase(), Phase::AwaitingInput);
    assert_eq!(o.retry().attempts(), 0);
    let log = h.snapshot();
    assert_eq!(log.len(), before + 1);
    assert_eq!(text_of(&log[before]), "Error performing function call: List file error: denied");
}

#[test]
fn unknown_tool_is_fed_back() {
    let (mut o, mut h, tools) = setup();
    o.on_input(&mut h, "x".to_string());
    let reply = vec![call_turn(vec![call("nope", "{}"), call("list_files", "{}")])];
    let step = o.on_model_reply(&mut h, &tools, reply);
    match &step.request {
        Request::RunTool(c) => assert_eq!(c.name, "list_files"),
        other => panic!("expected a tool run, got {:?}", other),
    }
    let log = h.snapshot();
    assert_eq!(log.len(), 3);
    assert_eq!(text_of(&log[2]), "ToolNotFound: nope");
    assert_eq!(o.current_call().unwrap().name, "list_files");
}

#[test]
fn only_unknown_tools_requery() {
    let (mut o, mut h, tools) = setup();
    o.on_input(&mut h, "x".to_string());
    let step = o.on_model_reply(&mut h, &tools, vec![call_turn(vec![call("ghost", "{}")])]);
    assert!(matches!(step.request, Request::QueryModel));
    assert_eq!(o.phase(), Phase::QueryModel);
    assert_eq!(h.len(), 3);
}

#[test]
fn backend_error_retried_then_fed_back() {
    let (mut o, mut h, tools) = setup();
    o.on_input(&mut h, "x".to_string());
    for _ in 0..2 {
        let step = o.on_model_error(&mut h, AgentError::BackendError("busy".to_string()));
        assert!(matches!(step.request, Request::Wait(1000)));
        assert_eq!(o.phase(), Phase::Recovering);
        let step = o.on_delay_elapsed(&mut h, &tools);
        assert!(matches!(step.request, Request::QueryModel));
    }
    let step = o.on_model_error(&mut h, AgentError::BackendError("busy".to_string()));
    assert!(matches!(step.request, Request::ReadInput));
    assert_eq!(o.phase(), Phase::AwaitingInput);
    let log = h.snapshot();
    assert_eq!(log.len(), 2);
    assert_eq!(text_of(&log[1]), "BackendError: busy");
}

#[test]
fn exit_line_terminates() {
    let (mut o, mut h, _tools) = setup();
    let step = o.on_input(&mut h, "exit\n".to_string());
    assert!(matches!(step.request, Request::Stop));
    assert_eq!(o.phase(), Phase::Terminated);
    assert_eq!(h.len(), 0);
}

#[test]
fn input_failure_terminates() {
    let (mut o, h, _tools) = setup();
    let step = o.on_input_failed(&h, "closed".to_string());
    assert!(matches!(step.request, Request::Stop));
    assert!(matches!(step.failure, Some(Failure::Agent(AgentError::UserInputError(ref m))) if m == "closed"));
    assert_eq!(o.phase(), Phase::Terminated);
}

#[test]
fn text_reply_shows_every_text_part() {
    let (mut o, mut h, tools) = setup();
    o.on_input(&mut h, "x".to_string());
    let reply = vec![
        Content::new(vec![Part::new("one"), Part::new("two")], AgentRole::Model),
        text_reply("three"),
    ];
    let step = o.on_model_reply(&mut h, &tools, reply);
    assert_eq!(step.shown, vec!["one".to_string(), "two".to_string(), "three".to_string()]);
    let log = h.snapshot();
    assert_eq!(log.len(), 4);
    assert_eq!(text_of(&log[3]), "three");
}

#[test]
fn tool_output_is_json_encoded() {
    let (mut o, mut h, tools) = setup();
    o.on_input(&mut h, "x".to_string());
    o.on_model_reply(&mut h, &tools, vec![call_turn(vec![call("list_files", "{}")])]);
    o.on_tool_result(&mut h, &tools, Ok("line \"one\"\n".to_string()));
    let log = h.snapshot();
    assert_eq!(text_of(&log[2]), "\"line \\\"one\\\"\\n\"");
}

#[test]
fn accepted_output_is_fed_back_verbatim() {
    let (mut o, mut h, tools) = setup();
    o.on_input(&mut h, "x".to_string());
    o.on_model_reply(&mut h, &tools, vec![call_turn(vec![call("list_files", "{}")])]);
    let step = o.accept_tool_output(&mut h, &tools, "raw".to_string());
    assert!(matches!(step.request, Request::QueryModel));
    assert_eq!(text_of(&h.snapshot()[2]), "raw");
}
