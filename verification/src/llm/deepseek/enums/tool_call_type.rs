//! The kinds of tool call DeepSeek makes.
use vstd::prelude::*;
use crate::text::{concat2, str_eq};

verus! {

/// The kind of a tool call.
#[derive(Clone, Copy, Debug, PartialEq, Eq, Structural)]
pub enum ToolCallType {
    Function,
}

impl ToolCallType {
    /// The wire name.
    pub open spec fn name_spec(self) -> Seq<char> {
        match self {
            ToolCallType::Function => "function"@,
        }
    }

    /// The value a wire name stands for.
    pub open spec fn parse_spec(s: Seq<char>) -> Option<ToolCallType> {
        if s == "function"@ {
            Some(ToolCallType::Function)
        } else {
            None
        }
    }

    /// The wire name.
    pub fn as_str(&self) -> (r: &'static str)
        ensures
            r@ == self.name_spec(),
    {
        match self {
            ToolCallType::Function => "function",
        }
    }

    /// The value named `s`, or the error `Unknown tool call type <s>`.
    pub fn from_str(s: &str) -> (r: Result<ToolCallType, String>)
        ensures
            match r {
                Ok(v) => Self::parse_spec(s@) == Some(v),
                Err(e) => Self::parse_spec(s@) is None && e@ == "Unknown tool call type "@ + s@,
            },
    {
        if str_eq(s, "function") {
            Ok(ToolCallType::Function)
        } else {
            Err(concat2("Unknown tool call type ", s))
        }
    }
}

impl std::str::FromStr for ToolCallType {
    type Err = String;

    fn from_str(s: &str) -> (r: Result<ToolCallType, String>)
        ensures
            match r {
                Ok(v) => ToolCallType::parse_spec(s@) == Some(v),
                Err(e) => ToolCallType::parse_spec(s@) is None && e@ == "Unknown tool call type "@ + s@,
            },
    {
        ToolCallType::from_str(s)
    }
}

/// Reading back the wire name of a value gives that value, and only its own
/// name does.
pub proof fn law_tool_call_type_round_trip(v: ToolCallType, s: Seq<char>)
    ensures
        ToolCallType::parse_spec(v.name_spec()) == Some(v),
        ToolCallType::parse_spec(s) == Some(v) ==> s == v.name_spec(),
{
    reveal_strlit("function");
    assert("function"@.len() == 8);
}

} // verus!
