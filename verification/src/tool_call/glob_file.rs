//! The `glob` tool.
use vstd::prelude::*;
use crate::error::RagentError;
use crate::tool_call::function_type::ToolFunctionType;
use crate::tool_call::helpers::text_result_view;
use crate::tool_call::tool::{
    file_report, file_report_spec, schema_spec, tool_schema_of, FunctionTool, SchemaView, ToolSchema,
};

verus! {

/// Finds files matching a glob pattern.
#[derive(Debug)]
pub struct GlobFileTool;

impl FunctionTool for GlobFileTool {
    open spec fn kind(&self) -> ToolFunctionType {
        ToolFunctionType::Glob
    }

    open spec fn schema(&self) -> SchemaView {
        schema_spec(ToolFunctionType::Glob)
    }

    fn tool_type(&self) -> (t: ToolFunctionType) {
        ToolFunctionType::Glob
    }

    fn tool_schema(&self) -> (s: ToolSchema) {
        tool_schema_of(ToolFunctionType::Glob)
    }
}

impl GlobFileTool {
    /// The tool's answer: what the operation gave, or
    /// `Error globing file <path>: <error>` when it failed.
    pub fn report(&self, path: &str, outcome: &Result<String, RagentError>) -> (r: String)
        ensures
            r@ == file_report_spec("Error globing file"@, path@, text_result_view(*outcome)),
    {
        file_report("Error globing file", path, outcome)
    }
}

} // verus!
