//! The `edit_file` tool.
use vstd::prelude::*;
use crate::error::RagentError;
use crate::tool_call::function_type::ToolFunctionType;
use crate::tool_call::helpers::text_result_view;
use crate::tool_call::tool::{
    file_report, file_report_spec, schema_spec, tool_schema_of, FunctionTool, SchemaView, ToolSchema,
};

verus! {

/// Replaces exact text in a file once.
#[derive(Debug)]
pub struct EditFileTool;

impl FunctionTool for EditFileTool {
    open spec fn kind(&self) -> ToolFunctionType {
        ToolFunctionType::EditFile
    }

    open spec fn schema(&self) -> SchemaView {
        schema_spec(ToolFunctionType::EditFile)
    }

    fn tool_type(&self) -> (t: ToolFunctionType) {
        ToolFunctionType::EditFile
    }

    fn tool_schema(&self) -> (s: ToolSchema) {
        tool_schema_of(ToolFunctionType::EditFile)
    }
}

impl EditFileTool {
    /// The tool's answer: what the operation gave, or
    /// `Error editing file <path>: <error>` when it failed.
    pub fn report(&self, path: &str, outcome: &Result<String, RagentError>) -> (r: String)
        ensures
            r@ == file_report_spec("Error editing file"@, path@, text_result_view(*outcome)),
    {
        file_report("Error editing file", path, outcome)
    }
}

} // verus!
