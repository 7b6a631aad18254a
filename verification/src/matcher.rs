//! The regular-expression engine, as the evaluation sees it.
//!
//! Compiling and matching are the `regex` crate's work. The two functions
//! that call it, [`new_matcher`] and [`capture_spans`], are not proved:
//! their contracts state what the engine is trusted to do.

use crate::captures::{spans_well_formed, Spans};
use regex::bytes::Regex;
use vstd::prelude::*;

verus! {

/// A compiled pattern of `regex::bytes`. Opaque: only the engine reads it.
#[verifier::external_type_specification]
#[verifier::external_body]
pub struct ExRegex(regex::bytes::Regex);

/// A pattern together with its compiled form.
///
/// The fields are private and only [`new_matcher`] fills them, so the two
/// always belong together: `regex` is what the engine made of `pattern`.
#[derive(Debug)]
pub struct CompiledMatcher {
    regex: Regex,
    pattern: String,
}

impl View for CompiledMatcher {
    type V = Seq<char>;

    /// The pattern that was compiled.
    closed spec fn view(&self) -> Seq<char> {
        self.pattern@
    }
}

impl CompiledMatcher {
    /// The pattern that was compiled.
    pub fn pattern(&self) -> (pattern: &str)
        ensures
            pattern@ == self@,
    {
        self.pattern.as_str()
    }
}

/// The diagnostic with which `regex::bytes::Regex::new` rejects `pattern`,
/// as the `Display` of its error writes it; `None` where it accepts
/// `pattern`.
pub uninterp spec fn compile_diagnostic(pattern: Seq<char>) -> Option<Seq<char>>;

/// The matches of `pattern` in `subject`, in the order in which
/// `Regex::captures_iter` yields them, each as the spans that
/// `Captures::iter` yields for its capture groups.
pub uninterp spec fn match_spans(pattern: Seq<char>, subject: Seq<u8>) -> Seq<
    Seq<Option<(usize, usize)>>,
>;

/// Compiles `pattern` with the engine's default options.
///
/// Calls `regex::bytes::Regex::new` and, where that fails, `to_string` on
/// its `regex::Error`. Trusted: whether the engine accepts a pattern, and
/// the diagnostic with which it rejects one, depend on the pattern's text
/// alone.
#[verifier::external_body]
pub(crate) fn new_matcher(pattern: &str) -> (outcome: Result<CompiledMatcher, String>)
    ensures
        match outcome {
            Ok(matcher) => compile_diagnostic(pattern@) is None && matcher@ == pattern@,
            Err(diagnostic) => compile_diagnostic(pattern@) == Some(diagnostic@),
        },
{
    match Regex::new(pattern) {
        Ok(regex) => Ok(CompiledMatcher { regex, pattern: pattern.to_string() }),
        Err(error) => Err(error.to_string()),
    }
}

/// Searches `subject` for all matches of the compiled pattern and reports,
/// for each match, the span of every capture group.
///
/// Calls `Regex::captures_iter`, on each match `Captures::iter`, and on each
/// group that took part `Match::start` and `Match::end`. Trusted: the spans
/// depend on the pattern and the subject alone; the matches come in the
/// order of the subject and do not overlap; group 0, the whole match, is
/// present in each; every span satisfies `start <= end <= subject.len()`.
#[verifier::external_body]
pub(crate) fn capture_spans(matcher: &CompiledMatcher, subject: &[u8]) -> (spans: Spans)
    ensures
        spans.deep_view() == match_spans(matcher@, subject@),
        spans_well_formed(spans.deep_view(), subject@.len()),
{
    matcher
        .regex
        .captures_iter(subject)
        .map(|captures| captures.iter().map(|group| group.map(|m| (m.start(), m.end()))).collect())
        .collect()
}

} // verus!
