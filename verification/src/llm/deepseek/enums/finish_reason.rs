//! Why DeepSeek stopped generating.
use vstd::prelude::*;
use crate::text::{concat2, str_eq};

verus! {

/// Why DeepSeek stopped generating.
#[derive(Clone, Copy, Debug, PartialEq, Eq, Structural)]
pub enum FinishReason {
    ToolCalls,
    Stop,
}

impl FinishReason {
    /// The wire name.
    pub open spec fn name_spec(self) -> Seq<char> {
        match self {
            FinishReason::ToolCalls => "tool_calls"@,
            FinishReason::Stop => "stop"@,
        }
    }

    /// The value a wire name stands for.
    pub open spec fn parse_spec(s: Seq<char>) -> Option<FinishReason> {
        if s == "tool_calls"@ {
            Some(FinishReason::ToolCalls)
        } else if s == "stop"@ {
            Some(FinishReason::Stop)
        } else {
            None
        }
    }

    /// The wire name.
    pub fn as_str(&self) -> (r: &'static str)
        ensures
            r@ == self.name_spec(),
    {
        match self {
            FinishReason::ToolCalls => "tool_calls",
            FinishReason::Stop => "stop",
        }
    }

    /// The value named `s`, or the error `Unknown finish_reason <s>`.
    pub fn from_str(s: &str) -> (r: Result<FinishReason, String>)
        ensures
            match r {
                Ok(v) => Self::parse_spec(s@) == Some(v),
                Err(e) => Self::parse_spec(s@) is None && e@ == "Unknown finish_reason "@ + s@,
            },
    {
        if str_eq(s, "tool_calls") {
            Ok(FinishReason::ToolCalls)
        } else if str_eq(s, "stop") {
            Ok(FinishReason::Stop)
        } else {
            Err(concat2("Unknown finish_reason ", s))
        }
    }
}

impl std::str::FromStr for FinishReason {
    type Err = String;

    fn from_str(s: &str) -> (r: Result<FinishReason, String>)
        ensures
            match r {
                Ok(v) => FinishReason::parse_spec(s@) == Some(v),
                Err(e) => FinishReason::parse_spec(s@) is None && e@ == "Unknown finish_reason "@ + s@,
            },
    {
        FinishReason::from_str(s)
    }
}

/// Reading back the wire name of a value gives that value, and only its own
/// name does.
pub proof fn law_finish_reason_round_trip(v: FinishReason, s: Seq<char>)
    ensures
        FinishReason::parse_spec(v.name_spec()) == Some(v),
        FinishReason::parse_spec(s) == Some(v) ==> s == v.name_spec(),
{
    reveal_strlit("tool_calls");
    reveal_strlit("stop");
    assert("tool_calls"@.len() == 10 && "stop"@.len() == 4);
}

} // verus!
