//! Capture slots: from the byte spans that the engine reports for each match
//! to the text of every capture group.
//!
//! A match is a row of slots, one per capture group, slot 0 being the whole
//! match. A slot is the text that its group captured, or `None` where the
//! group took no part in the match. The engine reports a slot as a span
//! `(start, end)` of byte offsets into the subject; the span becomes text
//! only if its bytes are well-formed UTF-8.

use vstd::prelude::*;
use vstd::slice::slice_subrange;
use vstd::utf8::{decode_utf8, valid_utf8};

verus! {

/// The spans of all matches: one row per match, one entry per capture group.
pub type Spans = Vec<Vec<Option<(usize, usize)>>>;

/// The slots of all matches: one row per match, one entry per capture group.
pub type Matches = Vec<Vec<Option<String>>>;

/// The bytes of `subject` that `span` covers.
pub open spec fn span_bytes(subject: Seq<u8>, span: (usize, usize)) -> Seq<u8> {
    subject.subrange(span.0 as int, span.1 as int)
}

/// A span that is present lies within a subject of `len` bytes.
pub open spec fn span_in_bounds(span: Option<(usize, usize)>, len: nat) -> bool {
    span matches Some(s) ==> s.0 <= s.1 <= len
}

/// Every span of every match lies within a subject of `len` bytes.
pub open spec fn spans_in_bounds(spans: Seq<Seq<Option<(usize, usize)>>>, len: nat) -> bool {
    forall|i: int, j: int|
        0 <= i < spans.len() && 0 <= j < spans[i].len() ==> span_in_bounds(
            #[trigger] spans[i][j],
            len,
        )
}

/// The span of the whole match: that of group 0.
pub open spec fn whole_match(row: Seq<Option<(usize, usize)>>) -> (usize, usize) {
    row[0]->0
}

/// A row of spans has the span of the whole match in front.
pub open spec fn has_whole_match(row: Seq<Option<(usize, usize)>>) -> bool {
    row.len() > 0 && row[0] is Some
}

/// The matches follow each other through the subject from left to right,
/// without overlap: each ends where the next begins, or before.
pub open spec fn in_subject_order(spans: Seq<Seq<Option<(usize, usize)>>>) -> bool {
    forall|i: int, j: int|
        0 <= i < j < spans.len() ==> whole_match(#[trigger] spans[i]).1 <= whole_match(
            #[trigger] spans[j],
        ).0
}

/// What holds of the spans of a search through a subject of `len` bytes:
/// every span lies within the subject, every match has its whole span, and
/// the matches stand in the order of the subject.
pub open spec fn spans_well_formed(spans: Seq<Seq<Option<(usize, usize)>>>, len: nat) -> bool {
    &&& spans_in_bounds(spans, len)
    &&& forall|i: int| 0 <= i < spans.len() ==> has_whole_match(#[trigger] spans[i])
    &&& in_subject_order(spans)
}

/// A span that is present covers well-formed UTF-8.
pub open spec fn span_is_text(subject: Seq<u8>, span: Option<(usize, usize)>) -> bool {
    span matches Some(s) ==> valid_utf8(span_bytes(subject, s))
}

/// Every span of one match covers well-formed UTF-8.
pub open spec fn row_is_text(subject: Seq<u8>, row: Seq<Option<(usize, usize)>>) -> bool {
    forall|j: int| 0 <= j < row.len() ==> span_is_text(subject, #[trigger] row[j])
}

/// Every span of every match covers well-formed UTF-8.
pub open spec fn all_text(subject: Seq<u8>, spans: Seq<Seq<Option<(usize, usize)>>>) -> bool {
    forall|i: int| 0 <= i < spans.len() ==> row_is_text(subject, #[trigger] spans[i])
}

/// The slot that a span stands for: the text that its bytes encode.
pub open spec fn slot_of(subject: Seq<u8>, span: Option<(usize, usize)>) -> Option<Seq<char>> {
    match span {
        Some(s) => Some(decode_utf8(span_bytes(subject, s))),
        None => None,
    }
}

/// The slots of one match, in the order of its spans.
pub open spec fn slots_of(subject: Seq<u8>, row: Seq<Option<(usize, usize)>>) -> Seq<
    Option<Seq<char>>,
> {
    Seq::new(row.len(), |j: int| slot_of(subject, row[j]))
}

/// The slots of all matches, in the order of the matches.
pub open spec fn matches_of(subject: Seq<u8>, spans: Seq<Seq<Option<(usize, usize)>>>) -> Seq<
    Seq<Option<Seq<char>>>,
> {
    Seq::new(spans.len(), |i: int| slots_of(subject, spans[i]))
}

/// A capture whose bytes are not text: the group `group` of the match
/// `match_index`, both counted from 0.
#[derive(Debug, Clone, Copy, PartialEq, Eq, Structural)]
pub struct EncodingError {
    pub match_index: usize,
    pub group: usize,
}

/// `error` names the first span, in the order of matches and then of groups,
/// that does not cover well-formed UTF-8.
pub open spec fn first_not_text(
    subject: Seq<u8>,
    spans: Seq<Seq<Option<(usize, usize)>>>,
    error: EncodingError,
) -> bool {
    &&& error.match_index < spans.len()
    &&& error.group < spans[error.match_index as int].len()
    &&& !span_is_text(subject, spans[error.match_index as int][error.group as int])
    &&& forall|j: int|
        0 <= j < error.group ==> span_is_text(
            subject,
            #[trigger] spans[error.match_index as int][j],
        )
    &&& forall|i: int| 0 <= i < error.match_index ==> row_is_text(subject, #[trigger] spans[i])
}

/// `outcome` is what the spans of a search come to: the slots of all matches
/// where every span covers well-formed UTF-8, and else the first span that
/// does not.
pub open spec fn is_extraction(
    outcome: Result<Matches, EncodingError>,
    subject: Seq<u8>,
    spans: Seq<Seq<Option<(usize, usize)>>>,
) -> bool {
    match outcome {
        Ok(matches) => all_text(subject, spans) && matches.deep_view() == matches_of(
            subject,
            spans,
        ),
        Err(error) => first_not_text(subject, spans, error),
    }
}

/// The text between the byte offsets `start` and `end` of `subject`, or
/// `None` if those bytes are not well-formed UTF-8.
pub fn span_text(subject: &[u8], start: usize, end: usize) -> (text: Option<String>)
    requires
        start <= end <= subject@.len(),
    ensures
        text is Some <==> valid_utf8(subject@.subrange(start as int, end as int)),
        text matches Some(t) ==> t@ == decode_utf8(subject@.subrange(start as int, end as int)),
{
    let bytes = slice_subrange(subject, start, end);
    match core::str::from_utf8(bytes) {
        Ok(text) => Some(String::from_str(text)),
        Err(_) => None,
    }
}

proof fn lemma_row_view(row: Vec<Option<(usize, usize)>>)
    ensures
        row.deep_view() == row@,
{
    assert(row.deep_view() =~= row@);
}

proof fn lemma_spans_view(spans: Spans)
    ensures
        spans.deep_view().len() == spans@.len(),
        forall|i: int| 0 <= i < spans@.len() ==> #[trigger] spans.deep_view()[i] == spans@[i]@,
{
    assert forall|i: int| 0 <= i < spans@.len() implies #[trigger] spans.deep_view()[i]
        == spans@[i]@ by {
        lemma_row_view(spans@[i]);
    }
}

/// The slots of one match, or the index of its first group whose span does
/// not cover well-formed UTF-8.
fn extract_slots(subject: &[u8], row: &Vec<Option<(usize, usize)>>) -> (outcome: Result<
    Vec<Option<String>>,
    usize,
>)
    requires
        forall|j: int| 0 <= j < row@.len() ==> span_in_bounds(#[trigger] row@[j], subject@.len()),
    ensures
        match outcome {
            Ok(slots) => row_is_text(subject@, row@) && slots.deep_view() == slots_of(
                subject@,
                row@,
            ),
            Err(group) => {
                &&& group < row@.len()
                &&& !span_is_text(subject@, row@[group as int])
                &&& forall|j: int| 0 <= j < group ==> span_is_text(subject@, #[trigger] row@[j])
            },
        },
{
    let mut slots: Vec<Option<String>> = Vec::new();
    let mut j: usize = 0;
    while j < row.len()
        invariant
            j <= row@.len(),
            slots@.len() == j,
            forall|k: int|
                0 <= k < row@.len() ==> span_in_bounds(#[trigger] row@[k], subject@.len()),
            forall|k: int| 0 <= k < j ==> span_is_text(subject@, #[trigger] row@[k]),
            forall|k: int|
                0 <= k < j ==> (#[trigger] slots@[k]).deep_view() == slot_of(subject@, row@[k]),
        decreases row@.len() - j,
    {
        match row[j] {
            None => {
                slots.push(None);
            },
            Some((start, end)) => {
                match span_text(subject, start, end) {
                    Some(text) => {
                        slots.push(Some(text));
                    },
                    None => {
                        return Err(j);
                    },
                }
            },
        }
        j += 1;
    }
    assert(slots.deep_view() =~= slots_of(subject@, row@));
    Ok(slots)
}

/// Turns the spans of all matches into their slots.
///
/// Fails on the first span, in the order of matches and then of groups, whose
/// bytes are not well-formed UTF-8, and names it.
pub fn extract_matches(subject: &[u8], spans: &Spans) -> (outcome: Result<Matches, EncodingError>)
    requires
        spans_in_bounds(spans.deep_view(), subject@.len()),
    ensures
        is_extraction(outcome, subject@, spans.deep_view()),
{
    proof {
        lemma_spans_view(*spans);
    }
    let mut matches: Matches = Vec::new();
    let mut i: usize = 0;
    while i < spans.len()
        invariant
            i <= spans@.len(),
            matches@.len() == i,
            spans.deep_view().len() == spans@.len(),
            forall|k: int| 0 <= k < spans@.len() ==> #[trigger] spans.deep_view()[k] == spans@[k]@,
            spans_in_bounds(spans.deep_view(), subject@.len()),
            forall|k: int| 0 <= k < i ==> row_is_text(subject@, #[trigger] spans.deep_view()[k]),
            forall|k: int|
                0 <= k < i ==> (#[trigger] matches@[k]).deep_view() == slots_of(
                    subject@,
                    spans.deep_view()[k],
                ),
        decreases spans@.len() - i,
    {
        let row = &spans[i];
        assert forall|j: int| 0 <= j < row@.len() implies span_in_bounds(
            #[trigger] row@[j],
            subject@.len(),
        ) by {
            assert(spans.deep_view()[i as int][j] == row@[j]);
        }
        match extract_slots(subject, row) {
            Ok(slots) => {
                matches.push(slots);
            },
            Err(group) => {
                return Err(EncodingError { match_index: i, group });
            },
        }
        i += 1;
    }
    assert(matches.deep_view() =~= matches_of(subject@, spans.deep_view()));
    Ok(matches)
}

} // verus!
