use ragent::error::RagentError;
use ragent::llm::client::ApiClient;
use ragent::llm::deepseek::enums::finish_reason::FinishReason as DeepseekFinishReason;
use ragent::llm::deepseek::enums::model::DeepseekModel;
use ragent::llm::deepseek::enums::tool_call_type::ToolCallType;
use ragent::llm::deepseek::response::{Choice, DeepseekResponse};
use ragent::llm::engine::conversation::{Conversation, Message};
use ragent::llm::llm_type::LlmType;
use ragent::llm::response::{FinishReason, ResponseMessage};
use ragent::tool_call::function_type::ToolFunctionType;
use ragent::tool_call::tool::{tool_schema_of, ToolCall, ToolCallFunction};

#[test]
fn enum_names_round_trip() {
    assert_eq!(LlmType::DeepSeek.as_str(), "DeepSeek");
    assert_eq!(LlmType::from_str("DeepSeek").unwrap(), LlmType::DeepSeek);
    assert_eq!(LlmType::from_str("deepseek").unwrap_err(), "Unknown llm type deepseek");
    assert_eq!(FinishReason::ToolCalls.as_str(), "tool_calls");
    assert_eq!(FinishReason::from_str("stop").unwrap(), FinishReason::Stop);
    assert_eq!(FinishReason::from_str("length").unwrap_err(), "Unknown finish_reason length");
    assert_eq!(DeepseekFinishReason::from_str("tool_calls").unwrap(), DeepseekFinishReason::ToolCalls);
    assert_eq!(DeepseekFinishReason::Stop.as_str(), "stop");
    assert_eq!(DeepseekModel::DeepseekV4Pro.as_str(), "deepseek-v4-pro");
    assert_eq!(DeepseekModel::from_str("deepseek-v4-flash").unwrap(), DeepseekModel::DeepseekV4Flash);
    assert_eq!(DeepseekModel::from_str("gpt").unwrap_err(), "Unknown model name gpt");
    assert_eq!(ToolCallType::Function.as_str(), "function");
    assert_eq!(ToolCallType::from_str("function").unwrap(), ToolCallType::Function);
    assert_eq!(ToolCallType::from_str("fn").unwrap_err(), "Unknown tool call type fn");
    let parsed: FinishReason = "tool_calls".parse().unwrap();
    assert_eq!(parsed, FinishReason::ToolCalls);
}

#[test]
fn builder_requires_llm_url_and_key() {
    let e = ApiClient::builder().build().unwrap_err();
    assert_eq!(e.message(), "llm is required");
    let e = ApiClient::builder().llm_type("DeepSeek").unwrap().build().unwrap_err();
    assert_eq!(e.message(), "base_url is required");
    let e = ApiClient::builder()
        .llm_type("DeepSeek")
        .unwrap()
        .set_base_url("http://x".into())
        .build()
        .unwrap_err();
    assert!(matches!(e, RagentError::ClientBuild(ref m) if m == "api_key is required"));
    match ApiClient::builder().llm_type("OpenAI") {
        Err(RagentError::UnsupportedLlm(n)) => assert_eq!(n, "OpenAI"),
        _ => panic!("OpenAI is not supported"),
    }
}

#[test]
fn builder_builds_client() {
    let c = ApiClient::builder()
        .llm_type("DeepSeek")
        .unwrap()
        .set_base_url("https://api.deepseek.com/chat/completions".into())
        .api_key("sk-test".into())
        .header("X-Trace".into(), "1".into())
        .build()
        .unwrap();
    assert_eq!(c.llm(), LlmType::DeepSeek);
    assert_eq!(c.base_url(), "https://api.deepseek.com/chat/completions");
    assert_eq!(c.api_key(), "sk-test");
    assert_eq!(c.timeout_secs(), 30);
    assert_eq!(c.authorization(), "Bearer sk-test");
    let c2 = ragent::llm::client::ApiClientBuilder::default()
        .llm_type("DeepSeek")
        .unwrap()
        .set_base_url("u".into())
        .api_key("k".into())
        .timeout(60)
        .build()
        .unwrap();
    assert_eq!(c2.timeout_secs(), 60);
}

#[test]
fn client_checks_status() {
    let c = ApiClient::builder()
        .llm_type("DeepSeek")
        .unwrap()
        .set_base_url("u".into())
        .api_key("k".into())
        .build()
        .unwrap();
    assert_eq!(c.check_status(200, "body".into()).unwrap(), "body");
    assert_eq!(c.check_status(299, "b".into()).unwrap(), "b");
    let e = c.check_status(404, "not found".into()).unwrap_err();
    assert_eq!(e.message(), "API returned error status 404: not found");
    assert!(c.check_status(199, "x".into()).is_err());
    assert!(c.check_status(300, "x".into()).is_err());
    assert_eq!(
        c.parse_failure("expected value".into()).message(),
        "Failed to parse DeepSeek API response: expected value"
    );
}

#[test]
fn error_messages() {
    assert_eq!(
        RagentError::EnvVarMissing("MODEL".into()).message(),
        "Environment variable `MODEL` not set. Please set it in your .env file."
    );
    assert_eq!(RagentError::ApiRequest("timeout".into()).message(), "API request failed: timeout");
    assert_eq!(RagentError::EmptyResponse.message(), "No response message from API (empty choices)");
    assert_eq!(RagentError::Json("eof".into()).message(), "JSON error: eof");
    assert_eq!(RagentError::PathNotAFile("/w/d".into()).message(), "Path is not a file: /w/d");
    assert_eq!(RagentError::UnsupportedLlm("X".into()).message(), "Unsupported LLM type: X");
    assert_eq!(
        RagentError::ApiStatus { status: 0, body: String::new() }.message(),
        "API returned error status 0: "
    );
}

fn call(index: u32, id: &str, name: ToolFunctionType, args: &str) -> ToolCall {
    ToolCall {
        index,
        id: id.to_string(),
        call_type: ToolCallType::Function,
        function: ToolCallFunction { name, arguments: args.to_string() },
    }
}

fn message(tool_calls: Option<Vec<ToolCall>>) -> ResponseMessage {
    ResponseMessage {
        role: "assistant".into(),
        content: "hi".into(),
        reasoning_content: "think".into(),
        tool_calls,
    }
}

#[test]
fn into_parsed_takes_first_choice() {
    let resp = DeepseekResponse {
        choices: vec![
            Choice {
                finish_reason: FinishReason::ToolCalls,
                message: message(Some(vec![call(0, "c0", ToolFunctionType::Bash, "{}")])),
            },
            Choice { finish_reason: FinishReason::Stop, message: message(None) },
        ],
    };
    let p = resp.into_parsed().unwrap();
    assert_eq!(p.finish_reason, FinishReason::ToolCalls);
    assert_eq!(p.tool_calls.len(), 1);
    assert_eq!(p.tool_calls[0].id, "c0");
    assert_eq!(p.message.content, "hi");
    assert!(p.message.tool_calls.is_some());

    let p2 = DeepseekResponse {
        choices: vec![Choice { finish_reason: FinishReason::Stop, message: message(None) }],
    }
    .into_parsed()
    .unwrap();
    assert!(p2.tool_calls.is_empty());

    let empty = DeepseekResponse { choices: vec![] }.into_parsed();
    assert!(matches!(empty, Err(RagentError::EmptyResponse)));
}

#[test]
fn conversation_pushes_and_renders() {
    let mut conv = Conversation::new("deepseek-v4-pro".into(), vec![tool_schema_of(ToolFunctionType::Bash)]);
    assert_eq!(conv.model(), "deepseek-v4-pro");
    assert_eq!(conv.thinking(), "enabled");
    assert_eq!(conv.reasoning_effort(), "high");
    assert!(!conv.stream());
    assert_eq!(conv.tools().len(), 1);
    assert!(conv.messages().is_empty());
    conv.push_system("sys".into());
    conv.push_user("hello".into());
    conv.push_assistant(message(None));
    conv.push_tool_result("c1".into(), "out".into());
    assert_eq!(conv.messages().len(), 4);
    let open = ">".repeat(40);
    let close = "<".repeat(40);
    assert_eq!(conv.messages()[0].render(), format!("{}\nsystem:\nsys\n{}\n\n", open, close));
    assert_eq!(conv.messages()[1].render(), format!("{}\nuser:\nhello\n{}\n\n", open, close));
    assert_eq!(
        conv.messages()[2].render(),
        format!("{}\nreasoning_content:\nthink\nassistant:\nhi\n{}\n\n", open, close)
    );
    assert_eq!(
        conv.messages()[3].render(),
        format!("{}\ntool(c1):\nmuted now\n{}\n\n", open, close)
    );
    match &conv.messages()[3] {
        Message::Tool { content, tool_call_id } => {
            assert_eq!(content, "out");
            assert_eq!(tool_call_id, "c1");
        }
        _ => panic!("expected a tool message"),
    }
}
