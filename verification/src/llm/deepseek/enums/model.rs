//! The DeepSeek models.
use vstd::prelude::*;
use crate::text::{concat2, str_eq};

verus! {

/// A DeepSeek model.
#[derive(Clone, Copy, Debug, PartialEq, Eq, Structural)]
pub enum DeepseekModel {
    DeepseekV4Pro,
    DeepseekV4Flash,
}

impl DeepseekModel {
    /// The wire name.
    pub open spec fn name_spec(self) -> Seq<char> {
        match self {
            DeepseekModel::DeepseekV4Pro => "deepseek-v4-pro"@,
            DeepseekModel::DeepseekV4Flash => "deepseek-v4-flash"@,
        }
    }

    /// The value a wire name stands for.
    pub open spec fn parse_spec(s: Seq<char>) -> Option<DeepseekModel> {
        if s == "deepseek-v4-pro"@ {
            Some(DeepseekModel::DeepseekV4Pro)
        } else if s == "deepseek-v4-flash"@ {
            Some(DeepseekModel::DeepseekV4Flash)
        } else {
            None
        }
    }

    /// The wire name.
    pub fn as_str(&self) -> (r: &'static str)
        ensures
            r@ == self.name_spec(),
    {
        match self {
            DeepseekModel::DeepseekV4Pro => "deepseek-v4-pro",
            DeepseekModel::DeepseekV4Flash => "deepseek-v4-flash",
        }
    }

    /// The value named `s`, or the error `Unknown model name <s>`.
    pub fn from_str(s: &str) -> (r: Result<DeepseekModel, String>)
        ensures
            match r {
                Ok(v) => Self::parse_spec(s@) == Some(v),
                Err(e) => Self::parse_spec(s@) is None && e@ == "Unknown model name "@ + s@,
            },
    {
        if str_eq(s, "deepseek-v4-pro") {
            Ok(DeepseekModel::DeepseekV4Pro)
        } else if str_eq(s, "deepseek-v4-flash") {
            Ok(DeepseekModel::DeepseekV4Flash)
        } else {
            Err(concat2("Unknown model name ", s))
        }
    }
}

impl std::str::FromStr for DeepseekModel {
    type Err = String;

    fn from_str(s: &str) -> (r: Result<DeepseekModel, String>)
        ensures
            match r {
                Ok(v) => DeepseekModel::parse_spec(s@) == Some(v),
                Err(e) => DeepseekModel::parse_spec(s@) is None && e@ == "Unknown model name "@ + s@,
            },
    {
        DeepseekModel::from_str(s)
    }
}

/// Reading back the wire name of a value gives that value, and only its own
/// name does.
pub proof fn law_deepseek_model_round_trip(v: DeepseekModel, s: Seq<char>)
    ensures
        DeepseekModel::parse_spec(v.name_spec()) == Some(v),
        DeepseekModel::parse_spec(s) == Some(v) ==> s == v.name_spec(),
{
    reveal_strlit("deepseek-v4-pro");
    reveal_strlit("deepseek-v4-flash");
    assert("deepseek-v4-pro"@.len() == 15 && "deepseek-v4-flash"@.len() == 17);
}

} // verus!
