//! The pattern-matching engine behind the grammars.
//!
//! Matching is done by the `regex` crate. Nothing in this module is proved:
//! each item states what the library takes on trust from that crate, and the
//! rest of the library is verified against these statements.

use vstd::prelude::*;

verus! {

/// `regex::Regex`, a compiled regular expression. Its inside is not visible
/// to the verifier.
#[verifier::external_type_specification]
#[verifier::external_body]
pub struct ExRegex(regex::Regex);

/// `regex::Error`, the reason why a pattern did not compile.
#[verifier::external_type_specification]
#[verifier::external_body]
pub struct ExRegexError(regex::Error);

/// Whether `regex::Regex::new` compiles the given pattern, that is returns
/// `Ok` on it.
pub uninterp spec fn regex_accepts(pattern: Seq<char>) -> bool;

/// What the non-overlapping matches of a compiled pattern in a text capture,
/// from left to right: one entry for each match that
/// `regex::Regex::captures_iter` yields, and in each entry, for each of the
/// given group names in turn, the text that `regex::Captures::name` reports
/// for that group, or `None` where the group took no part in the match.
pub uninterp spec fn regex_captures(
    pattern: Seq<char>,
    text: Seq<char>,
    names: Seq<Seq<char>>,
) -> Seq<Seq<Option<Seq<char>>>>;

/// A pattern together with the engine compiled from it.
///
/// Values of this type come from [`compile`] alone, so the engine of a
/// `Pattern` is always the one that `regex::Regex::new` built from its
/// source.
pub struct Pattern {
    source: String,
    engine: regex::Regex,
}

impl View for Pattern {
    type V = Seq<char>;

    /// The source text of the pattern.
    closed spec fn view(&self) -> Seq<char> {
        self.source@
    }
}

/// Calls `regex::Regex::new` on the pattern and keeps the pattern's text
/// beside the compiled engine.
///
/// Trusted: the call succeeds exactly on the patterns that
/// [`regex_accepts`] names, and the value returned carries the source it was
/// compiled from.
#[verifier::external_body]
pub(crate) fn compile(source: &str) -> (r: Result<Pattern, regex::Error>)
    ensures
        r is Ok <==> regex_accepts(source@),
        r matches Ok(pattern) ==> pattern@ == source@,
{
    regex::Regex::new(source).map(|engine| Pattern { source: source.to_string(), engine })
}

/// Calls `regex::Regex::captures_iter` on the text and reads from each match
/// the named groups with `regex::Captures::name` and `regex::Match::as_str`.
///
/// Trusted: the outcome is the one that [`regex_captures`] names for the
/// pattern's source, the text and the group names, and every entry of it
/// has one item for each name.
#[verifier::external_body]
pub(crate) fn captures(pattern: &Pattern, text: &str, names: &Vec<&str>) -> (out: Vec<
    Vec<Option<String>>,
>)
    ensures
        out.deep_view() == regex_captures(pattern@, text@, names.deep_view()),
        forall|i: int| 0 <= i < out@.len() ==> (#[trigger] out@[i])@.len() == names@.len(),
{
    pattern.engine.captures_iter(text).map(
        |found|
            names.iter().map(|name| found.name(name).map(|group| group.as_str().to_string())).collect(),
    ).collect()
}

} // verus!
