//! The boundary to the regular-expression engine. The engine is an opaque
//! capability: compiling a pattern yields a [`Matcher`], and a matcher yields,
//! per input, the capture groups of the first match, if any. Both outcomes
//! depend on the pattern and the input alone, so they are named by
//! uninterpreted functions that the rest of the library's contracts speak of.

use vstd::prelude::*;

verus! {

#[verifier::external_type_specification]
#[verifier::external_body]
pub struct ExRegex(regex::Regex);

/// What compiling a pattern yields: `Ok` when the pattern is a valid regular
/// expression the engine accepts, otherwise the engine's description of the
/// defect. The same pattern yields the same outcome every time.
pub uninterp spec fn spec_compile(pattern: Seq<char>) -> Result<(), Seq<char>>;

/// What matching a pattern against an input yields: `None` when the pattern
/// matches nowhere in the input; otherwise one entry per capture group of the
/// pattern — entry 0 the whole match — each `None` when that group did not
/// participate in the match. The same pattern and input yield the same
/// outcome every time.
pub uninterp spec fn spec_captures(pattern: Seq<char>, input: Seq<char>) -> Option<
    Seq<Option<Seq<char>>>,
>;

/// A compiled pattern, ready to be matched any number of times, and the
/// pattern text it was compiled from.
pub struct Matcher {
    source: String,
    regex: regex::Regex,
}

impl Matcher {
    /// The pattern this matcher was compiled from.
    pub closed spec fn src(&self) -> Seq<char> {
        self.source@
    }

    /// Relies on regex::Regex::new: it returns `Ok` exactly for a pattern
    /// that is a valid regular expression within the engine's default size
    /// limit, deterministically in the pattern, and the error's text
    /// describes the defect. The matcher keeps the pattern it was built from.
    #[verifier::external_body]
    pub(crate) fn compile(pattern: &str) -> (r: Result<Matcher, String>)
        ensures
            r is Ok <==> spec_compile(pattern@) is Ok,
            r matches Ok(m) ==> m.src() == pattern@,
            r matches Err(e) ==> spec_compile(pattern@) matches Err(msg) && e@ == msg,
    {
        match regex::Regex::new(pattern) {
            Ok(regex) => Ok(Matcher { source: pattern.to_owned(), regex }),
            Err(err) => Err(err.to_string()),
        }
    }

    /// Relies on regex::Regex::captures and regex::Captures::iter: `captures`
    /// returns `Some` exactly when the pattern matches somewhere in the
    /// input, and `iter` hands out one entry per capture group of the
    /// pattern, in group order starting with the whole match, `None` for a
    /// group that did not participate in the match. Both are deterministic in
    /// the pattern and the input.
    #[verifier::external_body]
    pub(crate) fn find_captures(&self, input: &str) -> (r: Option<Vec<Option<String>>>)
        ensures
            r is Some <==> spec_captures(self.src(), input@) is Some,
            r matches Some(caps) ==> spec_captures(self.src(), input@) matches Some(cs)
                && caps.deep_view() == cs,
    {
        match self.regex.captures(input) {
            None => None,
            Some(caps) => Some(
                caps.iter().map(|g| g.map(|m| m.as_str().to_string())).collect(),
            ),
        }
    }
}

} // verus!
