use ragent::llm::client::ApiClient;
use ragent::llm::deepseek::enums::tool_call_type::ToolCallType;
use ragent::llm::engine::agent::{default_tool_registry, describe_tool_call, Engine, EngineAction};
use ragent::llm::engine::conversation::Message;
use ragent::llm::response::{FinishReason, ParsedResponse, ResponseMessage};
use ragent::text::{char_is_whitespace, trim};
use ragent::tool_call::function_type::ToolFunctionType;
use ragent::tool_call::tool::{ToolCall, ToolCallFunction, ToolRegistry};

fn client() -> ApiClient {
    ApiClient::builder()
        .llm_type("DeepSeek")
        .unwrap()
        .set_base_url("u".into())
        .api_key("k".into())
        .timeout(60)
        .build()
        .unwrap()
}

fn call(index: u32, id: &str, name: ToolFunctionType) -> ToolCall {
    ToolCall {
        index,
        id: id.to_string(),
        call_type: ToolCallType::Function,
        function: ToolCallFunction { name, arguments: "{\"command\": \"ls\"}".to_string() },
    }
}

fn response(finish: FinishReason, calls: Vec<ToolCall>) -> ParsedResponse {
    let message = ResponseMessage {
        role: "assistant".into(),
        content: "answer".into(),
        reasoning_content: "why".into(),
        tool_calls: if calls.is_empty() { None } else { Some(calls.clone()) },
    };
    ParsedResponse { message, finish_reason: finish, tool_calls: calls }
}

fn engine() -> Engine {
    Engine::with_deps(client(), default_tool_registry(), "deepseek-v4-pro".into(), "/w".into())
}

#[test]
fn new_engine_has_system_prompt_and_tools() {
    let e = engine();
    assert_eq!(e.turn_count(), 0);
    assert_eq!(e.work_dir(), "/w");
    assert_eq!(e.client().timeout_secs(), 60);
    let msgs = e.conversation().messages();
    assert_eq!(msgs.len(), 1);
    match &msgs[0] {
        Message::System { content } => assert_eq!(
            content,
            "You are a coding agent at /w. Use tools to solve tasks. Act first, then report clearly"
        ),
        _ => panic!("first message must be the system prompt"),
    }
    let names: Vec<&str> = e.conversation().tools().iter().map(|s| s.name).collect();
    assert_eq!(names, vec!["bash", "read_file", "write_file", "edit_file", "glob"]);
    assert!(matches!(e.start(), EngineAction::PromptUser));
}

#[test]
fn quit_commands_finish_without_change() {
    for q in ["/q", "/exit", "/quit", "  /quit \n", "/q\t", "\u{3000}/exit"] {
        let mut e = engine();
        assert!(matches!(e.on_user_input(q), EngineAction::Finish));
        assert_eq!(e.conversation().messages().len(), 1);
    }
}

#[test]
fn user_input_is_trimmed_and_sent() {
    let mut e = engine();
    assert!(matches!(e.on_user_input("  list files\t\n"), EngineAction::SendRequest));
    match e.conversation().messages().last().unwrap() {
        Message::User { content } => assert_eq!(content, "list files"),
        _ => panic!("expected a user message"),
    }
}

#[test]
fn tool_call_round() {
    let mut e = engine();
    e.on_user_input("go");
    let calls = vec![call(0, "c0", ToolFunctionType::Bash), call(1, "c1", ToolFunctionType::Glob)];
    match e.on_response(response(FinishReason::ToolCalls, calls)) {
        EngineAction::RunTools(cs) => {
            assert_eq!(cs.len(), 2);
            assert_eq!(cs[1].id, "c1");
        }
        other => panic!("unexpected {:?}", other),
    }
    assert_eq!(e.turn_count(), 1);
    assert_eq!(e.conversation().messages().len(), 3);
    match e.on_tool_output("out0".into()) {
        EngineAction::RunTools(rest) => {
            assert_eq!(rest.len(), 1);
            assert_eq!(rest[0].id, "c1");
        }
        other => panic!("unexpected {:?}", other),
    }
    assert!(matches!(e.on_tool_output("out1".into()), EngineAction::SendRequest));
    let msgs = e.conversation().messages();
    assert_eq!(msgs.len(), 5);
    match (&msgs[3], &msgs[4]) {
        (
            Message::Tool { content: a, tool_call_id: ia },
            Message::Tool { content: b, tool_call_id: ib },
        ) => {
            assert_eq!((a.as_str(), ia.as_str()), ("out0", "c0"));
            assert_eq!((b.as_str(), ib.as_str()), ("out1", "c1"));
        }
        _ => panic!("expected tool messages"),
    }
    assert!(matches!(e.on_response(response(FinishReason::Stop, vec![])), EngineAction::PromptUser));
    assert_eq!(e.turn_count(), 2);
    // with no call waiting, an output changes nothing
    assert!(matches!(e.on_tool_output("stray".into()), EngineAction::PromptUser));
    assert_eq!(e.conversation().messages().len(), 6);
}

#[test]
fn outputs_answer_calls_in_call_order() {
    let mut e = engine();
    e.on_user_input("go");
    let calls = vec![
        call(0, "a", ToolFunctionType::ReadFile),
        call(1, "b", ToolFunctionType::Bash),
        call(2, "c", ToolFunctionType::Glob),
    ];
    e.on_response(response(FinishReason::ToolCalls, calls));
    let before = e.conversation().messages().len();
    let mut last = None;
    for out in ["x", "y", "z"] {
        last = Some(e.on_tool_output(out.into()));
    }
    assert!(matches!(last, Some(EngineAction::SendRequest)));
    let msgs = &e.conversation().messages()[before..];
    let pairs: Vec<(String, String)> = msgs
        .iter()
        .map(|m| match m {
            Message::Tool { content, tool_call_id } => (content.clone(), tool_call_id.clone()),
            _ => panic!("expected tool messages"),
        })
        .collect();
    assert_eq!(
        pairs,
        vec![
            ("x".to_string(), "a".to_string()),
            ("y".to_string(), "b".to_string()),
            ("z".to_string(), "c".to_string())
        ]
    );
}

#[test]
fn tool_calls_without_calls_ask_the_user() {
    let mut e = engine();
    e.on_user_input("go");
    assert!(matches!(
        e.on_response(response(FinishReason::ToolCalls, vec![])),
        EngineAction::PromptUser
    ));
}

#[test]
fn resolve_and_describe_calls() {
    let mut reg = ToolRegistry::new();
    reg.register(ragent::tool_call::bash::BashTool);
    let e = Engine::with_deps(client(), reg, "m".into(), "/w".into());
    let c = call(3, "c3", ToolFunctionType::Bash);
    assert_eq!(e.resolve_tool(&c).unwrap(), ToolFunctionType::Bash);
    let missing = e.resolve_tool(&call(4, "c4", ToolFunctionType::Glob)).unwrap_err();
    assert_eq!(missing.content, "Tool not found: Glob");
    assert_eq!(missing.tool_use_id, "c4");
    assert_eq!(describe_tool_call(&c), "the idx=3 bash function arguments: {\"command\": \"ls\"}");
}

#[test]
fn trim_matches_std() {
    for s in ["", "  ", " a ", "\u{3000}x\u{2003}", "\tab c\n", "abc"] {
        assert_eq!(trim(s), s.trim());
    }
}

#[test]
fn whitespace_matches_std() {
    for n in 0u32..=0x10FFFF {
        if let Some(c) = char::from_u32(n) {
            assert_eq!(char_is_whitespace(c), c.is_whitespace(), "U+{:04X}", n);
        }
    }
}

#[test]
fn a_whole_run_grows_the_history_event_by_event() {
    let mut e = engine();
    let mut action = e.start();
    let mut len = e.conversation().messages().len();
    let first = e.conversation().messages()[0].render();
    let mut replies = vec![
        response(FinishReason::ToolCalls, vec![call(0, "k0", ToolFunctionType::Bash), call(1, "k1", ToolFunctionType::Glob)]),
        response(FinishReason::Stop, vec![]),
    ]
    .into_iter();
    let mut lines = vec!["  do it ", "/quit"].into_iter();
    let mut outputs = 0;
    loop {
        action = match action {
            EngineAction::PromptUser => {
                let line = lines.next().unwrap();
                let next = e.on_user_input(line);
                if !matches!(next, EngineAction::Finish) {
                    len += 1;
                }
                next
            }
            EngineAction::SendRequest => {
                len += 1;
                e.on_response(replies.next().unwrap())
            }
            EngineAction::RunTools(calls) => {
                assert!(!calls.is_empty());
                outputs += 1;
                len += 1;
                e.on_tool_output(format!("out of {}", calls[0].id))
            }
            EngineAction::Finish => break,
        };
        assert_eq!(e.conversation().messages().len(), len);
        assert_eq!(e.conversation().messages()[0].render(), first);
    }
    assert_eq!(outputs, 2);
    assert_eq!(e.turn_count(), 2);
    assert!(replies.next().is_none() && lines.next().is_none());
    match &e.conversation().messages()[3] {
        Message::Tool { content, tool_call_id } => {
            assert_eq!((content.as_str(), tool_call_id.as_str()), ("out of k0", "k0"))
        }
        _ => panic!("expected a tool message"),
    }
}

#[test]
fn agent_client_settings() {
    let c = ApiClient::for_agent("https://api.example/v1".into(), "key".into());
    assert_eq!(c.base_url(), "https://api.example/v1");
    assert_eq!(c.api_key(), "key");
    assert_eq!(c.timeout_secs(), 60);
    assert_eq!(c.llm().as_str(), "DeepSeek");
}
