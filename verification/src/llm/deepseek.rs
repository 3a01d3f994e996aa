//! DeepSeek's wire types.
pub mod enums;
pub mod parser;
pub mod response;
