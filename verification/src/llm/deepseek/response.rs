//! DeepSeek's chat completion response, and how it becomes a provider-neutral one.
use vstd::prelude::*;
use crate::error::{ErrorView, RagentError};
use crate::llm::response::{FinishReason, ParsedResponse, ResponseMessage};
use crate::tool_call::tool::{clone_tool_calls, ToolCall};

verus! {

/// One choice of a DeepSeek response.
#[derive(Debug)]
pub struct Choice {
    pub finish_reason: FinishReason,
    pub message: ResponseMessage,
}

/// A DeepSeek chat completion response (the fields the agent reads).
#[derive(Debug)]
pub struct DeepseekResponse {
    pub choices: Vec<Choice>,
}

/// The tool calls of a message, none when it has no list.
pub open spec fn calls_of(m: ResponseMessage) -> Seq<ToolCall> {
    match m.tool_calls {
        Some(v) => v@,
        None => seq![],
    }
}

impl DeepseekResponse {
    /// The first choice as a provider-neutral response; an empty list of
    /// choices is an error.
    pub fn into_parsed(self) -> (r: Result<ParsedResponse, RagentError>)
        ensures
            self.choices@.len() == 0 ==> (r matches Err(e) && e@ == ErrorView::EmptyResponse),
            self.choices@.len() > 0 ==> (r matches Ok(p) && p.message == self.choices@[0].message
                && p.finish_reason == self.choices@[0].finish_reason && p.tool_calls@ == calls_of(
                self.choices@[0].message,
            )),
    {
        let mut choices = self.choices;
        if choices.len() == 0 {
            return Err(RagentError::EmptyResponse);
        }
        let c = choices.remove(0);
        let tool_calls = match &c.message.tool_calls {
            Some(v) => clone_tool_calls(v),
            None => Vec::new(),
        };
        Ok(ParsedResponse { message: c.message, finish_reason: c.finish_reason, tool_calls })
    }
}

} // verus!
