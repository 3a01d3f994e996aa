//! Shell-style file name patterns, as the `glob` crate compiles and matches
//! them.
use vstd::prelude::*;

verus! {

#[verifier::external_type_specification]
#[verifier::external_body]
pub struct ExGlobPattern(glob::Pattern);

/// Whether `glob::Pattern::new` accepts `pattern`.
pub uninterp spec fn glob_compiles(pattern: Seq<char>) -> bool;

/// Whether the compiled `pattern` matches `name` (`glob::Pattern::matches`).
pub uninterp spec fn glob_matches(pattern: Seq<char>, name: Seq<char>) -> bool;

/// A compiled pattern together with the text it was compiled from.
pub struct GlobPattern {
    source: String,
    compiled: glob::Pattern,
}

impl View for GlobPattern {
    type V = Seq<char>;

    /// The pattern's text.
    closed spec fn view(&self) -> Seq<char> {
        self.source@
    }
}

/// `glob::Pattern::new`: compiles `pattern`.  The contract names the crate's
/// verdict `glob_compiles(pattern)` and says nothing more of which texts it
/// accepts.
#[verifier::external_body]
pub fn compile_glob(pattern: &str) -> (r: Option<GlobPattern>)
    ensures
        r is Some <==> glob_compiles(pattern@),
        r matches Some(g) ==> g@ == pattern@,
{
    match glob::Pattern::new(pattern) {
        Ok(compiled) => Some(GlobPattern { source: pattern.to_string(), compiled }),
        Err(_) => None,
    }
}

/// `glob::Pattern::matches`: whether the pattern matches `name`.  The
/// contract names the answer `glob_matches(pattern, name)`; the matching
/// rules themselves are the crate's.
#[verifier::external_body]
pub fn glob_pattern_matches(pattern: &GlobPattern, name: &str) -> (r: bool)
    ensures
        r == glob_matches(pattern@, name@),
{
    pattern.compiled.matches(name)
}

} // verus!
