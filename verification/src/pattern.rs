//! Regular expressions, by way of the `regex` crate.
use vstd::prelude::*;
use vstd::string::*;

verus! {

/// A compiled regular expression of the `regex` crate.
#[verifier::external_type_specification]
#[verifier::external_body]
pub struct ExRegex(regex::Regex);

/// The pattern that a compiled expression was made from.
pub uninterp spec fn source_of(re: regex::Regex) -> Seq<char>;

/// Why `regex` refuses a pattern; nothing where it accepts it.
pub uninterp spec fn pattern_fault(pattern: Seq<char>) -> Option<Seq<char>>;

/// Whether a pattern matches somewhere in a text, as `regex` decides it.
pub uninterp spec fn pattern_hits(pattern: Seq<char>, text: Seq<char>) -> bool;

/// `Regex::new`: the compiled pattern, or why it is none, in the words of
/// `regex`. Which patterns are accepted is not stated beyond this name.
#[verifier::external_body]
pub(crate) fn compile(pattern: &str) -> (r: Result<regex::Regex, String>)
    ensures
        (match r {
            Ok(re) => pattern_fault(pattern@) is None && source_of(re) == pattern@,
            Err(e) => pattern_fault(pattern@) == Some(e@),
        }),
{
    regex::Regex::new(pattern).map_err(|e| e.to_string())
}

/// `Regex::is_match`: whether the expression matches somewhere in a text.
#[verifier::external_body]
pub(crate) fn is_match(re: &regex::Regex, text: &str) -> (r: bool)
    ensures
        r == pattern_hits(source_of(*re), text@),
{
    re.is_match(text)
}

} // verus!
