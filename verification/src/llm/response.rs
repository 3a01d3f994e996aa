//! The provider-neutral model of an LLM response.
use vstd::prelude::*;
use crate::text::{concat2, str_eq};
use crate::tool_call::tool::{clone_tool_calls, ToolCall};

verus! {

/// Why the model stopped generating (provider-neutral).
#[derive(Clone, Copy, Debug, PartialEq, Eq, Structural)]
pub enum FinishReason {
    ToolCalls,
    Stop,
}

impl FinishReason {
    /// The wire name.
    pub open spec fn name_spec(self) -> Seq<char> {
        match self {
            FinishReason::ToolCalls => "tool_calls"@,
            FinishReason::Stop => "stop"@,
        }
    }

    /// The value a wire name stands for.
    pub open spec fn parse_spec(s: Seq<char>) -> Option<FinishReason> {
        if s == "tool_calls"@ {
            Some(FinishReason::ToolCalls)
        } else if s == "stop"@ {
            Some(FinishReason::Stop)
        } else {
            None
        }
    }

    /// The wire name.
    pub fn as_str(&self) -> (r: &'static str)
        ensures
            r@ == self.name_spec(),
    {
        match self {
            FinishReason::ToolCalls => "tool_calls",
            FinishReason::Stop => "stop",
        }
    }

    /// The value named `s`, or the error `Unknown finish_reason <s>`.
    pub fn from_str(s: &str) -> (r: Result<FinishReason, String>)
        ensures
            match r {
                Ok(v) => Self::parse_spec(s@) == Some(v),
                Err(e) => Self::parse_spec(s@) is None && e@ == "Unknown finish_reason "@ + s@,
            },
    {
        if str_eq(s, "tool_calls") {
            Ok(FinishReason::ToolCalls)
        } else if str_eq(s, "stop") {
            Ok(FinishReason::Stop)
        } else {
            Err(concat2("Unknown finish_reason ", s))
        }
    }
}

impl std::str::FromStr for FinishReason {
    type Err = String;

    fn from_str(s: &str) -> (r: Result<FinishReason, String>)
        ensures
            match r {
                Ok(v) => FinishReason::parse_spec(s@) == Some(v),
                Err(e) => FinishReason::parse_spec(s@) is None && e@ == "Unknown finish_reason "@ + s@,
            },
    {
        FinishReason::from_str(s)
    }
}

/// Reading back the wire name of a value gives that value, and only its own
/// name does.
pub proof fn law_response_finish_reason_round_trip(v: FinishReason, s: Seq<char>)
    ensures
        FinishReason::parse_spec(v.name_spec()) == Some(v),
        FinishReason::parse_spec(s) == Some(v) ==> s == v.name_spec(),
{
    reveal_strlit("tool_calls");
    reveal_strlit("stop");
    assert("tool_calls"@.len() == 10 && "stop"@.len() == 4);
}

/// A message of the model, provider-neutral.
#[derive(Debug)]
pub struct ResponseMessage {
    pub role: String,
    pub content: String,
    pub reasoning_content: String,
    pub tool_calls: Option<Vec<ToolCall>>,
}

/// The view of an optional list of tool calls.
pub open spec fn calls_view(o: Option<Vec<ToolCall>>) -> Option<Seq<ToolCall>> {
    match o {
        Some(v) => Some(v@),
        None => None,
    }
}

impl Clone for ResponseMessage {
    fn clone(&self) -> (r: ResponseMessage)
        ensures
            r.role == self.role,
            r.content == self.content,
            r.reasoning_content == self.reasoning_content,
            calls_view(r.tool_calls) == calls_view(self.tool_calls),
    {
        ResponseMessage {
            role: self.role.clone(),
            content: self.content.clone(),
            reasoning_content: self.reasoning_content.clone(),
            tool_calls: match &self.tool_calls {
                Some(v) => Some(clone_tool_calls(v)),
                None => None,
            },
        }
    }
}

/// A response as the engine uses it.
#[derive(Debug)]
pub struct ParsedResponse {
    pub message: ResponseMessage,
    pub finish_reason: FinishReason,
    pub tool_calls: Vec<ToolCall>,
}

impl Clone for ParsedResponse {
    fn clone(&self) -> (r: ParsedResponse)
        ensures
            r.message.role == self.message.role,
            r.message.content == self.message.content,
            r.message.reasoning_content == self.message.reasoning_content,
            calls_view(r.message.tool_calls) == calls_view(self.message.tool_calls),
            r.finish_reason == self.finish_reason,
            r.tool_calls@ == self.tool_calls@,
    {
        ParsedResponse {
            message: self.message.clone(),
            finish_reason: self.finish_reason,
            tool_calls: clone_tool_calls(&self.tool_calls),
        }
    }
}

} // verus!
