//! The chat API: the client, the provider-neutral response model, the
//! DeepSeek wire types, and the engine that drives a conversation.
pub mod client;
pub mod deepseek;
pub mod engine;
pub mod llm_type;
pub mod response;
