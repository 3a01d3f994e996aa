//! The DeepSeek response parser.
use vstd::prelude::*;

verus! {

/// Reads DeepSeek chat completion responses.  Reading the JSON text is left
/// to whoever holds the HTTP body; `DeepseekResponse::into_parsed` turns
/// what was read into a provider-neutral response.
#[derive(Debug)]
pub struct DeepseekParser;

} // verus!
