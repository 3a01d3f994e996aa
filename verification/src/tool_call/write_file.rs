//! The `write_file` tool.
use vstd::prelude::*;
use crate::error::RagentError;
use crate::tool_call::function_type::ToolFunctionType;
use crate::tool_call::helpers::text_result_view;
use crate::tool_call::tool::{
    file_report, file_report_spec, schema_spec, tool_schema_of, FunctionTool, SchemaView, ToolSchema,
};

verus! {

/// Writes a file of the workspace.
#[derive(Debug)]
pub struct WriteFileTool;

impl FunctionTool for WriteFileTool {
    open spec fn kind(&self) -> ToolFunctionType {
        ToolFunctionType::WriteFile
    }

    open spec fn schema(&self) -> SchemaView {
        schema_spec(ToolFunctionType::WriteFile)
    }

    fn tool_type(&self) -> (t: ToolFunctionType) {
        ToolFunctionType::WriteFile
    }

    fn tool_schema(&self) -> (s: ToolSchema) {
        tool_schema_of(ToolFunctionType::WriteFile)
    }
}

impl WriteFileTool {
    /// The tool's answer: what the operation gave, or
    /// `Error writing file <path>: <error>` when it failed.
    pub fn report(&self, path: &str, outcome: &Result<String, RagentError>) -> (r: String)
        ensures
            r@ == file_report_spec("Error writing file"@, path@, text_result_view(*outcome)),
    {
        file_report("Error writing file", path, outcome)
    }
}

} // verus!
