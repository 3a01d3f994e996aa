//! DeepSeek's enumerations.
pub mod finish_reason;
pub mod model;
pub mod tool_call_type;
