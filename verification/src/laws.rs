//! What holds of every report.

use crate::captures::{all_text, matches_of, slots_of, spans_well_formed, whole_match};
use crate::evaluate::{report_of, spans_report};
use crate::matcher::{compile_diagnostic, match_spans};
use crate::report::{match_block, match_blocks, report_text, slot_line, slot_lines, NO_MATCH};
use vstd::prelude::*;
use vstd::utf8::encode_utf8;

verus! {

/// The empty pattern has the empty report, whatever the subject.
pub proof fn empty_pattern_has_empty_report(subject: Seq<char>)
    ensures
        report_of(Seq::empty(), subject) == Seq::<char>::empty(),
{
}

/// The report on a pattern that the engine rejects is the engine's
/// diagnostic for that pattern, whatever the subject.
pub proof fn rejected_pattern_has_diagnostic(pattern: Seq<char>, subject: Seq<char>)
    requires
        pattern.len() > 0,
        compile_diagnostic(pattern) is Some,
    ensures
        report_of(pattern, subject) == compile_diagnostic(pattern)->0,
{
}

/// The report on a pattern that compiles and matches nowhere in the subject
/// is the marker `None`, which is not the empty report.
pub proof fn no_match_has_marker(pattern: Seq<char>, subject: Seq<char>)
    requires
        pattern.len() > 0,
        compile_diagnostic(pattern) is None,
        match_spans(pattern, encode_utf8(subject)).len() == 0,
    ensures
        report_of(pattern, subject) == NO_MATCH@,
        report_of(pattern, subject) == "None"@,
        report_of(pattern, subject).len() == 4,
{
    reveal_strlit("None");
    let spans = match_spans(pattern, encode_utf8(subject));
    assert(all_text(encode_utf8(subject), spans));
    assert(matches_of(encode_utf8(subject), spans).len() == 0);
}

/// The report depends on the pattern and the subject alone: evaluating the
/// same pattern against the same subject again gives the same report, byte
/// for byte.
pub proof fn same_inputs_have_same_report(
    pattern: Seq<char>,
    subject: Seq<char>,
    pattern_again: Seq<char>,
    subject_again: Seq<char>,
)
    requires
        pattern == pattern_again,
        subject == subject_again,
    ensures
        report_of(pattern, subject) == report_of(pattern_again, subject_again),
        encode_utf8(report_of(pattern, subject)) == encode_utf8(
            report_of(pattern_again, subject_again),
        ),
{
}

/// The lines of two rows of slots, one after the other, are the lines of
/// the joined row.
pub proof fn slot_lines_of_joined(
    front: Seq<Option<Seq<char>>>,
    back: Seq<Option<Seq<char>>>,
    first: nat,
)
    ensures
        slot_lines(front + back, first) == slot_lines(front, first) + slot_lines(
            back,
            first + front.len(),
        ),
    decreases front.len(),
{
    if front.len() == 0 {
        assert(front + back =~= back);
    } else {
        assert((front + back).drop_first() =~= front.drop_first() + back);
        slot_lines_of_joined(front.drop_first(), back, first + 1);
    }
}

/// The blocks of two lists of matches, one after the other, are the blocks
/// of the joined list.
pub proof fn match_blocks_of_joined(
    front: Seq<Seq<Option<Seq<char>>>>,
    back: Seq<Seq<Option<Seq<char>>>>,
)
    ensures
        match_blocks(front + back) == match_blocks(front) + match_blocks(back),
    decreases front.len(),
{
    if front.len() == 0 {
        assert(front + back =~= back);
    } else {
        assert((front + back).drop_first() =~= front.drop_first() + back);
        match_blocks_of_joined(front.drop_first(), back);
    }
}

/// Within a block the lines stand in the order of the slots and carry their
/// indices, counted from 0: the line of slot `k` follows the lines of the
/// slots before it and precedes those of the slots after it.
pub proof fn lines_stand_in_slot_order(slots: Seq<Option<Seq<char>>>, k: int)
    requires
        0 <= k < slots.len(),
    ensures
        match_block(slots) == "Some(Captures({\n"@ + slot_lines(slots.take(k), 0) + slot_line(
            k as nat,
            slots[k],
        ) + slot_lines(slots.skip(k + 1), (k + 1) as nat) + "})),\n"@,
{
    let front = slots.take(k);
    let back = slots.skip(k);
    assert(slots =~= front + back);
    slot_lines_of_joined(front, back, 0);
    assert(back.drop_first() =~= slots.skip(k + 1));
}

/// In a report the blocks stand in the order of the matches: the block of
/// match `i` precedes that of every later match `j`.
pub proof fn blocks_stand_in_match_order(matches: Seq<Seq<Option<Seq<char>>>>, i: int, j: int)
    requires
        0 <= i < j < matches.len(),
    ensures
        report_text(matches) == match_blocks(matches.take(i)) + match_block(matches[i])
            + match_blocks(matches.subrange(i + 1, j)) + match_block(matches[j]) + match_blocks(
            matches.skip(j + 1),
        ),
{
    let front = matches.take(i);
    let from_i = matches.skip(i);
    let between = matches.subrange(i + 1, j);
    let from_j = matches.skip(j);
    assert(matches =~= front + from_i);
    match_blocks_of_joined(front, from_i);
    assert(from_i.drop_first() =~= between + from_j);
    match_blocks_of_joined(between, from_j);
    assert(from_j.drop_first() =~= matches.skip(j + 1));
}

/// The report on a search lists the matches from left to right: of two
/// matches, the one whose block stands first in the report ends in the
/// subject where the other begins, or before.
pub proof fn report_follows_subject_order(
    subject: Seq<u8>,
    spans: Seq<Seq<Option<(usize, usize)>>>,
    i: int,
    j: int,
)
    requires
        spans_well_formed(spans, subject.len()),
        all_text(subject, spans),
        0 <= i < j < spans.len(),
    ensures
        whole_match(spans[i]).0 <= whole_match(spans[i]).1 <= whole_match(spans[j]).0
            <= whole_match(spans[j]).1 <= subject.len(),
        spans_report(subject, spans) == match_blocks(matches_of(subject, spans).take(i))
            + match_block(slots_of(subject, spans[i])) + match_blocks(
            matches_of(subject, spans).subrange(i + 1, j),
        ) + match_block(slots_of(subject, spans[j])) + match_blocks(
            matches_of(subject, spans).skip(j + 1),
        ),
{
    blocks_stand_in_match_order(matches_of(subject, spans), i, j);
    assert(spans[i][0] is Some);
    assert(spans[j][0] is Some);
}

/// Every match of a well-formed search has its whole text in slot 0.
pub proof fn whole_match_is_present(
    subject: Seq<u8>,
    spans: Seq<Seq<Option<(usize, usize)>>>,
    i: int,
)
    requires
        spans_well_formed(spans, subject.len()),
        0 <= i < spans.len(),
    ensures
        matches_of(subject, spans)[i].len() > 0,
        matches_of(subject, spans)[i][0] is Some,
{
}

/// A report that holds blocks is neither empty nor the marker `None`: the
/// three shapes of a report cannot be taken for each other.
pub proof fn blocks_differ_from_marker(matches: Seq<Seq<Option<Seq<char>>>>)
    requires
        matches.len() > 0,
    ensures
        report_text(matches).len() > 0,
        report_text(matches) != NO_MATCH@,
        report_text(matches)[0] == 'S',
{
    reveal_strlit("None");
    reveal_strlit("Some(Captures({\n");
    let block = match_block(matches[0]);
    assert(block[0] == 'S');
    assert(report_text(matches)[0] == block[0]);
    assert(NO_MATCH@[0] == 'N');
}

} // verus!
