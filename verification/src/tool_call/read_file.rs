//! The `read_file` tool.
use vstd::prelude::*;
use crate::error::RagentError;
use crate::tool_call::function_type::ToolFunctionType;
use crate::tool_call::helpers::text_result_view;
use crate::tool_call::tool::{
    file_report, file_report_spec, schema_spec, tool_schema_of, FunctionTool, SchemaView, ToolSchema,
};

verus! {

/// Reads a file of the workspace.
#[derive(Debug)]
pub struct ReadFileTool;

impl FunctionTool for ReadFileTool {
    open spec fn kind(&self) -> ToolFunctionType {
        ToolFunctionType::ReadFile
    }

    open spec fn schema(&self) -> SchemaView {
        schema_spec(ToolFunctionType::ReadFile)
    }

    fn tool_type(&self) -> (t: ToolFunctionType) {
        ToolFunctionType::ReadFile
    }

    fn tool_schema(&self) -> (s: ToolSchema) {
        tool_schema_of(ToolFunctionType::ReadFile)
    }
}

impl ReadFileTool {
    /// The tool's answer: what the operation gave, or
    /// `Error reading file <path>: <error>` when it failed.
    pub fn report(&self, path: &str, outcome: &Result<String, RagentError>) -> (r: String)
        ensures
            r@ == file_report_spec("Error reading file"@, path@, text_result_view(*outcome)),
    {
        file_report("Error reading file", path, outcome)
    }
}

} // verus!
