//! The LLM providers the client can talk to.
use vstd::prelude::*;
use crate::text::{concat2, str_eq};

verus! {

/// An LLM provider.
#[derive(Clone, Copy, Debug, PartialEq, Eq, Structural)]
pub enum LlmType {
    DeepSeek,
}

impl LlmType {
    /// The wire name.
    pub open spec fn name_spec(self) -> Seq<char> {
        match self {
            LlmType::DeepSeek => "DeepSeek"@,
        }
    }

    /// The value a wire name stands for.
    pub open spec fn parse_spec(s: Seq<char>) -> Option<LlmType> {
        if s == "DeepSeek"@ {
            Some(LlmType::DeepSeek)
        } else {
            None
        }
    }

    /// The wire name.
    pub fn as_str(&self) -> (r: &'static str)
        ensures
            r@ == self.name_spec(),
    {
        match self {
            LlmType::DeepSeek => "DeepSeek",
        }
    }

    /// The value named `s`, or the error `Unknown llm type <s>`.
    pub fn from_str(s: &str) -> (r: Result<LlmType, String>)
        ensures
            match r {
                Ok(v) => Self::parse_spec(s@) == Some(v),
                Err(e) => Self::parse_spec(s@) is None && e@ == "Unknown llm type "@ + s@,
            },
    {
        if str_eq(s, "DeepSeek") {
            Ok(LlmType::DeepSeek)
        } else {
            Err(concat2("Unknown llm type ", s))
        }
    }
}

impl std::str::FromStr for LlmType {
    type Err = String;

    fn from_str(s: &str) -> (r: Result<LlmType, String>)
        ensures
            match r {
                Ok(v) => LlmType::parse_spec(s@) == Some(v),
                Err(e) => LlmType::parse_spec(s@) is None && e@ == "Unknown llm type "@ + s@,
            },
    {
        LlmType::from_str(s)
    }
}

/// Reading back the wire name of a value gives that value, and only its own
/// name does.
pub proof fn law_llm_type_round_trip(v: LlmType, s: Seq<char>)
    ensures
        LlmType::parse_spec(v.name_spec()) == Some(v),
        LlmType::parse_spec(s) == Some(v) ==> s == v.name_spec(),
{
    reveal_strlit("DeepSeek");
    assert("DeepSeek"@.len() == 8);
}

} // verus!
