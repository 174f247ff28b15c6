//! Shell-style patterns, matched by the `glob` crate.

use vstd::prelude::*;

verus! {

/// `glob::Pattern`, a compiled pattern. Nothing inside it is seen here; it
/// is made and used through the functions below.
#[verifier::external_type_specification]
#[verifier::external_body]
pub struct ExPattern(glob::Pattern);

/// Whether `glob::Pattern::new` accepts a text as a pattern.
pub uninterp spec fn glob_compiles(pattern: Seq<char>) -> bool;

/// The text that a compiled pattern was made from, as
/// `glob::Pattern::as_str` returns it.
pub uninterp spec fn pattern_source(pattern: glob::Pattern) -> Seq<char>;

/// Whether `glob::Pattern::matches` finds that the pattern made from the
/// first text matches the second.
pub uninterp spec fn glob_matches(pattern: Seq<char>, name: Seq<char>) -> bool;

/// Compiles a pattern with `glob::Pattern::new`; `None` where it reports a
/// syntax error. The compiled pattern keeps the text it was made from.
#[verifier::external_body]
pub(crate) fn compile(pattern: &str) -> (compiled: Option<glob::Pattern>)
    ensures
        compiled is Some == glob_compiles(pattern@),
        compiled matches Some(p) ==> pattern_source(p) == pattern@,
{
    glob::Pattern::new(pattern).ok()
}

/// Matches a name with `glob::Pattern::matches`, that is, with the default
/// options: case matters, and a wildcard may stand for a separator. The
/// answer depends on the pattern's text and the name alone.
#[verifier::external_body]
pub(crate) fn accepts(pattern: &glob::Pattern, name: &str) -> (hit: bool)
    ensures
        hit == glob_matches(pattern_source(*pattern), name@),
{
    pattern.matches(name)
}

} // verus!
