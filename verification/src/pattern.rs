//! Regular expressions through the `regex` crate. The contracts name what the
//! crate computes (`spec_regex_*`) rather than restating regex semantics.

use vstd::prelude::*;

verus! {

#[verifier::external_type_specification]
#[verifier::external_body]
pub struct ExRegex(regex::Regex);

/// `Regex::new(p).is_ok()`: `p` is a valid regular expression.
pub uninterp spec fn spec_regex_compiles(pattern: Seq<char>) -> bool;

/// The text of the error `Regex::new(p)` reports for an invalid pattern.
pub uninterp spec fn spec_regex_error(pattern: Seq<char>) -> Seq<char>;

/// `Regex::is_match`: some part of `text` matches `pattern`.
pub uninterp spec fn spec_regex_is_match(pattern: Seq<char>, text: Seq<char>) -> bool;

/// `Regex::captures`: the capture groups (group 0 first) of the leftmost-first
/// match of `pattern` in `text`, each absent when it did not participate;
/// `None` when nothing matches.
pub uninterp spec fn spec_regex_captures(pattern: Seq<char>, text: Seq<char>) -> Option<
    Seq<Option<Seq<char>>>,
>;

/// A compiled regular expression together with its source text.
pub struct Pattern {
    source: String,
    compiled: regex::Regex,
}

impl View for Pattern {
    type V = Seq<char>;

    closed spec fn view(&self) -> Seq<char> {
        self.source@
    }
}

/// `Regex::new`: compiles `source`, or gives the text of the error it reports.
#[verifier::external_body]
pub(crate) fn compile_pattern(source: &str) -> (r: Result<Pattern, String>)
    ensures
        r is Ok <==> spec_regex_compiles(source@),
        r matches Ok(p) ==> p@ == source@,
        r matches Err(m) ==> m@ == spec_regex_error(source@),
{
    match regex::Regex::new(source) {
        Ok(compiled) => Ok(Pattern { source: source.to_string(), compiled }),
        Err(e) => Err(e.to_string()),
    }
}

impl Pattern {
    /// `Regex::is_match` on the compiled pattern.
    #[verifier::external_body]
    pub(crate) fn is_match(&self, text: &str) -> (r: bool)
        ensures
            r == spec_regex_is_match(self@, text@),
    {
        self.compiled.is_match(text)
    }

    /// `Regex::captures` on the compiled pattern, every group copied out.
    #[verifier::external_body]
    pub(crate) fn captures(&self, text: &str) -> (r: Option<Vec<Option<String>>>)
        ensures
            r.is_some() == spec_regex_captures(self@, text@).is_some(),
            r matches Some(groups) ==> groups.deep_view() == spec_regex_captures(
                self@,
                text@,
            ).unwrap(),
    {
        self.compiled.captures(text).map(
            |caps| caps.iter().map(|g| g.map(|m| m.as_str().to_string())).collect(),
        )
    }
}

} // verus!
