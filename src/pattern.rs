//! Regular expressions, through the `regex` crate.
use vstd::prelude::*;

verus! {

#[verifier::external_type_specification]
#[verifier::external_body]
pub struct ExRegex(regex::Regex);

/// Whether `regex::Regex::new` accepts `pattern` (valid syntax, within the default size limit).
pub uninterp spec fn regex_compiles(pattern: Seq<char>) -> bool;

/// Whether the expression compiled from `pattern` matches somewhere in `haystack`.
pub uninterp spec fn regex_matches(pattern: Seq<char>, haystack: Seq<char>) -> bool;

/// `pattern` compiles, and what it compiles to matches `haystack`.
pub open spec fn regex_accepts(pattern: Seq<char>, haystack: Seq<char>) -> bool {
    regex_compiles(pattern) && regex_matches(pattern, haystack)
}

/// A compiled expression together with the text it was compiled from.
/// Only `compile` builds one, so `compiled` always comes from `source`.
pub(crate) struct Pattern {
    source: String,
    compiled: regex::Regex,
}

impl Pattern {
    pub(crate) closed spec fn source(&self) -> Seq<char> {
        self.source@
    }

    /// Relies on `regex::Regex::new`: it returns `Ok` exactly when the pattern
    /// compiles.
    #[verifier::external_body]
    pub(crate) fn compile(source: &str) -> (r: Option<Pattern>)
        ensures
            r is Some <==> regex_compiles(source@),
            r matches Some(p) ==> p.source() == source@,
    {
        match regex::Regex::new(source) {
            Ok(compiled) => Some(Pattern { source: source.to_string(), compiled }),
            Err(_) => None,
        }
    }

    /// Relies on `regex::Regex::is_match`: whether the expression matches
    /// anywhere in `haystack`.
    #[verifier::external_body]
    pub(crate) fn is_match(&self, haystack: &str) -> (r: bool)
        ensures
            r == regex_matches(self.source(), haystack@),
    {
        self.compiled.is_match(haystack)
    }
}

/// Compiles `pattern` and tests it against `haystack`; a pattern that does not
/// compile accepts nothing.
pub(crate) fn accepts(pattern: &str, haystack: &str) -> (r: bool)
    ensures
        r == regex_accepts(pattern@, haystack@),
{
    match Pattern::compile(pattern) {
        Some(p) => p.is_match(haystack),
        None => false,
    }
}

} // verus!
