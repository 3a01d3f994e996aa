//! The kinds of tool function the model can call.
use vstd::prelude::*;
use crate::text::{concat2, str_eq};

verus! {

/// A tool function the model can call.
#[derive(Clone, Copy, Debug, PartialEq, Eq, Structural, Hash)]
pub enum ToolFunctionType {
    Bash,
    ReadFile,
    WriteFile,
    EditFile,
    Glob,
}

impl ToolFunctionType {
    /// The wire name of the function.
    pub open spec fn name_spec(self) -> Seq<char> {
        match self {
            ToolFunctionType::Bash => "bash"@,
            ToolFunctionType::ReadFile => "read_file"@,
            ToolFunctionType::WriteFile => "write_file"@,
            ToolFunctionType::EditFile => "edit_file"@,
            ToolFunctionType::Glob => "glob"@,
        }
    }

    /// The function a wire name stands for.
    pub open spec fn parse_spec(s: Seq<char>) -> Option<ToolFunctionType> {
        if s == "bash"@ {
            Some(ToolFunctionType::Bash)
        } else if s == "read_file"@ {
            Some(ToolFunctionType::ReadFile)
        } else if s == "write_file"@ {
            Some(ToolFunctionType::WriteFile)
        } else if s == "edit_file"@ {
            Some(ToolFunctionType::EditFile)
        } else if s == "glob"@ {
            Some(ToolFunctionType::Glob)
        } else {
            None
        }
    }

    /// The variant's name as `{:?}` writes it.
    pub open spec fn debug_spec(self) -> Seq<char> {
        match self {
            ToolFunctionType::Bash => "Bash"@,
            ToolFunctionType::ReadFile => "ReadFile"@,
            ToolFunctionType::WriteFile => "WriteFile"@,
            ToolFunctionType::EditFile => "EditFile"@,
            ToolFunctionType::Glob => "Glob"@,
        }
    }

    /// The wire name of the function.
    pub fn as_str(&self) -> (r: &'static str)
        ensures
            r@ == self.name_spec(),
    {
        match self {
            ToolFunctionType::Bash => "bash",
            ToolFunctionType::ReadFile => "read_file",
            ToolFunctionType::WriteFile => "write_file",
            ToolFunctionType::EditFile => "edit_file",
            ToolFunctionType::Glob => "glob",
        }
    }

    /// The variant's name as `{:?}` writes it.
    pub fn debug_name(&self) -> (r: &'static str)
        ensures
            r@ == self.debug_spec(),
    {
        match self {
            ToolFunctionType::Bash => "Bash",
            ToolFunctionType::ReadFile => "ReadFile",
            ToolFunctionType::WriteFile => "WriteFile",
            ToolFunctionType::EditFile => "EditFile",
            ToolFunctionType::Glob => "Glob",
        }
    }

    /// The function named `s`, or the error `Unknown tool function type <s>`.
    pub fn from_str(s: &str) -> (r: Result<ToolFunctionType, String>)
        ensures
            match r {
                Ok(t) => Self::parse_spec(s@) == Some(t),
                Err(e) => Self::parse_spec(s@) is None && e@ == "Unknown tool function type "@
                    + s@,
            },
    {
        if str_eq(s, "bash") {
            Ok(ToolFunctionType::Bash)
        } else if str_eq(s, "read_file") {
            Ok(ToolFunctionType::ReadFile)
        } else if str_eq(s, "write_file") {
            Ok(ToolFunctionType::WriteFile)
        } else if str_eq(s, "edit_file") {
            Ok(ToolFunctionType::EditFile)
        } else if str_eq(s, "glob") {
            Ok(ToolFunctionType::Glob)
        } else {
            Err(concat2("Unknown tool function type ", s))
        }
    }
}

impl std::str::FromStr for ToolFunctionType {
    type Err = String;

    fn from_str(s: &str) -> (r: Result<ToolFunctionType, String>)
        ensures
            match r {
                Ok(v) => ToolFunctionType::parse_spec(s@) == Some(v),
                Err(e) => ToolFunctionType::parse_spec(s@) is None && e@ == "Unknown tool function type "@ + s@,
            },
    {
        ToolFunctionType::from_str(s)
    }
}

/// Reading back the wire name of a function gives that function, and only
/// its own name does.
pub proof fn law_tool_function_type_round_trip(t: ToolFunctionType, s: Seq<char>)
    ensures
        ToolFunctionType::parse_spec(t.name_spec()) == Some(t),
        ToolFunctionType::parse_spec(s) == Some(t) ==> s == t.name_spec(),
{
    reveal_strlit("bash");
    reveal_strlit("read_file");
    reveal_strlit("write_file");
    reveal_strlit("edit_file");
    reveal_strlit("glob");
    assert("bash"@.len() == 4 && "read_file"@.len() == 9 && "write_file"@.len() == 10);
    assert("edit_file"@.len() == 9 && "glob"@.len() == 4);
    assert("read_file"@[0] != "edit_file"@[0]);
    assert("bash"@[0] != "glob"@[0]);
}

} // verus!
