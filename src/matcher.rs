//! The pattern-set matcher: `regex::RegexSet`, seen through the names below.

use vstd::prelude::*;

verus! {

/// `regex::RegexSet`, a compiled set of patterns, carried opaquely.
#[verifier::external_type_specification]
#[verifier::external_body]
pub struct ExRegexSet(regex::RegexSet);

/// `regex::Error`, why a pattern list failed to compile; only its message is
/// read.
#[verifier::external_type_specification]
#[verifier::external_body]
pub struct ExRegexError(regex::Error);

/// The pattern texts that a set was built from, in the order given.
pub uninterp spec fn set_patterns(s: regex::RegexSet) -> Seq<Seq<char>>;

/// Whether a set was built with the default options, as `RegexSet::new`
/// builds it; a builder's options change what the same texts match.
pub uninterp spec fn set_default_options(s: regex::RegexSet) -> bool;

/// Whether the given list of pattern texts compiles into a set.
pub uninterp spec fn set_compiles(patterns: Seq<Seq<char>>) -> bool;

/// Whether at least one of the given patterns, compiled with the default
/// options, matches somewhere in `line`.
pub uninterp spec fn set_is_match(patterns: Seq<Seq<char>>, line: Seq<char>) -> bool;

/// The texts of a list of strings.
pub open spec fn pattern_texts(patterns: Seq<String>) -> Seq<Seq<char>> {
    patterns.map_values(|p: String| p@)
}

/// Relies on `regex::RegexSet::new`: it fails exactly when the patterns do
/// not compile together, and a set it returns keeps the patterns in order
/// and is built with the default options.
#[verifier::external_body]
pub(crate) fn compile_set(patterns: &Vec<String>) -> (r: Result<regex::RegexSet, regex::Error>)
    ensures
        r is Ok <==> set_compiles(pattern_texts(patterns@)),
        r matches Ok(s) ==> set_patterns(s) == pattern_texts(patterns@),
        r matches Ok(s) ==> set_default_options(s),
{
    regex::RegexSet::new(patterns)
}

/// Relies on `regex::RegexSet::is_match`: for a set built with the default
/// options, true iff one of its patterns matches the haystack; a set without
/// patterns matches nothing.
pub assume_specification[ regex::RegexSet::is_match ](s: &regex::RegexSet, haystack: &str) -> (r: bool)
    ensures
        set_default_options(*s) ==> r == set_is_match(set_patterns(*s), haystack@),
        set_patterns(*s).len() == 0 ==> !r,
;

/// Relies on `regex::RegexSet::patterns`: the patterns the set was built
/// from, in the order given.
pub assume_specification[ regex::RegexSet::patterns ](s: &regex::RegexSet) -> (r: &[String])
    ensures
        pattern_texts(r@) == set_patterns(*s),
;

} // verus!
