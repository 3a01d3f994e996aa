//! A coding agent's verified core: the request and response model of the
//! chat API, the conversation it keeps, the decisions of its turn loop, and
//! the tools it offers (path confinement to the workspace, command
//! screening, file edits and listings).
pub mod error;
pub mod llm;
pub mod text;
pub mod tool_call;
