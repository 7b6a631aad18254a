//! Evaluation: from a pattern and a subject to the report.

use crate::captures::{
    all_text, extract_matches, is_extraction, matches_of, spans_well_formed, EncodingError,
    Matches,
};
use crate::matcher::{
    capture_spans, compile_diagnostic, match_spans, new_matcher, CompiledMatcher,
};
use crate::report::{format_matches, report_text};
use vstd::prelude::*;
use vstd::utf8::encode_utf8;

verus! {

/// The report of a search in which a capture group matched bytes that are
/// not well-formed UTF-8.
pub const NOT_TEXT: &'static str = "a capture group matched bytes that are not valid UTF-8";

/// A pattern that the engine does not accept, with the engine's diagnostic.
#[derive(Debug)]
pub struct CompileError {
    pub message: String,
}

/// The report on the spans that a search through `subject` found.
pub open spec fn spans_report(subject: Seq<u8>, spans: Seq<Seq<Option<(usize, usize)>>>) -> Seq<
    char,
> {
    if all_text(subject, spans) {
        report_text(matches_of(subject, spans))
    } else {
        NOT_TEXT@
    }
}

/// The report on the matches of `pattern`, which compiles, in `subject`.
pub open spec fn captures_report(pattern: Seq<char>, subject: Seq<char>) -> Seq<char> {
    spans_report(encode_utf8(subject), match_spans(pattern, encode_utf8(subject)))
}

/// The spans that the engine finds for `pattern` in `subject` are well
/// formed: within the subject, from left to right without overlap, each
/// match with its whole span.
pub open spec fn search_well_formed(pattern: Seq<char>, subject: Seq<char>) -> bool {
    spans_well_formed(match_spans(pattern, encode_utf8(subject)), encode_utf8(subject).len())
}

/// The report on `pattern` and `subject`: empty for the empty pattern, the
/// engine's diagnostic for a pattern that does not compile, and else the
/// report on the matches.
pub open spec fn report_of(pattern: Seq<char>, subject: Seq<char>) -> Seq<char> {
    if pattern.len() == 0 {
        Seq::empty()
    } else {
        match compile_diagnostic(pattern) {
            Some(diagnostic) => diagnostic,
            None => captures_report(pattern, subject),
        }
    }
}

/// Compiles `pattern`.
///
/// Any text is accepted as input. The outcome is the engine's: its compiled
/// pattern, or its diagnostic, unchanged, for a pattern that it rejects.
pub fn compile(pattern: &str) -> (outcome: Result<CompiledMatcher, CompileError>)
    ensures
        match compile_diagnostic(pattern@) {
            None => outcome matches Ok(matcher) && matcher@ == pattern@,
            Some(diagnostic) => outcome matches Err(error) && error.message@ == diagnostic,
        },
{
    match new_matcher(pattern) {
        Ok(matcher) => Ok(matcher),
        Err(diagnostic) => Err(CompileError { message: diagnostic }),
    }
}

/// Finds all matches of the compiled pattern in `subject`, from left to
/// right, and the text of every capture group of each.
///
/// The engine's matches are well formed: they follow each other through the
/// subject without overlap, and each has its whole span. The outcome holds
/// their text, slot by slot. It is an error if a capture group matched bytes
/// that are not well-formed UTF-8; the error names the first such group.
pub fn find_matches(matcher: &CompiledMatcher, subject: &str) -> (outcome: Result<
    Matches,
    EncodingError,
>)
    ensures
        search_well_formed(matcher@, subject@),
        is_extraction(
            outcome,
            encode_utf8(subject@),
            match_spans(matcher@, encode_utf8(subject@)),
        ),
{
    let bytes = subject.as_bytes();
    let spans = capture_spans(matcher, bytes);
    extract_matches(bytes, &spans)
}

/// Reports on the matches of the compiled pattern `regex` in `subject`.
///
/// The report is the word `None` if nothing matches, the blocks of the
/// matches if every capture is text, and [`NOT_TEXT`] otherwise.
pub fn format_captures(regex: CompiledMatcher, subject: &str) -> (report: String)
    ensures
        report@ == captures_report(regex@, subject@),
        search_well_formed(regex@, subject@),
{
    match find_matches(&regex, subject) {
        Ok(matches) => format_matches(&matches),
        Err(_) => String::from_str(NOT_TEXT),
    }
}

/// Evaluates `pattern` against `subject` and reports the outcome as text.
///
/// The report of the empty pattern is empty, whatever the subject. That of a
/// pattern that does not compile is the engine's diagnostic, with nothing
/// added. That of any other pattern is the report on its matches.
pub fn run_regex(pattern: &str, subject: &str) -> (report: String)
    ensures
        report@ == report_of(pattern@, subject@),
        pattern@.len() > 0 && compile_diagnostic(pattern@) is None ==> search_well_formed(
            pattern@,
            subject@,
        ),
{
    if pattern.is_empty() {
        return String::new();
    }
    match compile(pattern) {
        Ok(regex) => format_captures(regex, subject),
        Err(error) => error.message,
    }
}

} // verus!
