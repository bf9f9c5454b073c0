//! Regular expressions, compiled and matched by the regex crate.

use vstd::prelude::*;

verus! {

#[verifier::external_type_specification]
#[verifier::external_body]
pub struct ExRegex(regex::Regex);

/// What `Regex::new` gives for a pattern: `None` where it compiles, else the
/// text that the error's `Display` prints.
pub uninterp spec fn regex_error(pattern: Seq<char>) -> Option<Seq<char>>;

/// What `Regex::is_match` answers: whether the compiled pattern matches
/// somewhere in the text.
pub uninterp spec fn regex_matches(pattern: Seq<char>, text: Seq<char>) -> bool;

/// What `Regex::captures` gives: `None` where the pattern does not match,
/// else the groups of the leftmost-first match, group 0 first, each `None`
/// where the group took no part in the match.
pub uninterp spec fn regex_captures(pattern: Seq<char>, text: Seq<char>) -> Option<
    Seq<Option<Seq<char>>>,
>;

/// A compiled regular expression, with the pattern that it was compiled from.
pub struct CompiledPattern {
    regex: regex::Regex,
    source: Ghost<Seq<char>>,
}

impl CompiledPattern {
    /// The pattern that this expression was compiled from.
    pub closed spec fn source(&self) -> Seq<char> {
        self.source@
    }
}

/// The groups of a match as mathematical text.
pub open spec fn group_views(groups: Seq<Option<String>>) -> Seq<Option<Seq<char>>> {
    groups.map_values(
        |g: Option<String>|
            match g {
                Some(s) => Some(s@),
                None => None,
            },
    )
}

/// Calls `Regex::new`; an error is handed back as the text that it displays.
#[verifier::external_body]
pub(crate) fn compile_pattern(pattern: &str) -> (r: Result<CompiledPattern, String>)
    ensures
        r is Ok <==> regex_error(pattern@) is None,
        r matches Ok(c) ==> c.source() == pattern@,
        r matches Err(e) ==> regex_error(pattern@) == Some(e@),
{
    match regex::Regex::new(pattern) {
        Ok(re) => Ok(CompiledPattern { regex: re, source: Ghost(pattern@) }),
        Err(e) => Err(e.to_string()),
    }
}

/// Calls `Regex::is_match`.
#[verifier::external_body]
pub(crate) fn pattern_is_match(p: &CompiledPattern, text: &str) -> (r: bool)
    ensures
        r == regex_matches(p.source(), text@),
{
    p.regex.is_match(text)
}

/// Calls `Regex::captures`, each group taken as an owned string.
#[verifier::external_body]
pub(crate) fn pattern_captures(p: &CompiledPattern, text: &str) -> (r: Option<Vec<Option<String>>>)
    ensures
        r is Some <==> regex_captures(p.source(), text@) is Some,
        r matches Some(g) ==> regex_captures(p.source(), text@) == Some(group_views(g@)),
{
    p.regex.captures(text).map(|c| c.iter().map(|m| m.map(|m| m.as_str().to_string())).collect())
}

}
