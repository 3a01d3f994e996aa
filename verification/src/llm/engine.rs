//! The conversation and the engine that drives it.
pub mod agent;
pub mod conversation;
