//! The tools the agent offers the model, and what they share.
pub mod bash;
pub mod edit_file;
pub mod function_type;
pub mod glob_file;
pub mod glob_pattern;
pub mod helpers;
pub mod lines;
pub mod path;
pub mod read_file;
pub mod tool;
pub mod write_file;
