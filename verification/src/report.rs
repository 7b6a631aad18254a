//! The text of a report: one block per match, one line per capture slot.
//!
//! ```text
//! Some(Captures({
//!     0: Some("ab"),
//!     1: Some("a"),
//!     2: None,
//! })),
//! ```
//!
//! Blocks follow each other in the order of the matches, lines in the order
//! of the slots, numbered from 0. Without any match the report is the word
//! `None`.

use crate::captures::Matches;
use crate::decimal::{decimal, push_decimal};
use crate::text::{debug_quoted, quoted};
use vstd::prelude::*;

verus! {

/// The report of a search that found no match.
pub const NO_MATCH: &'static str = "None";

/// The line of the slot numbered `index`, whose text, written as a literal,
/// is `literal`; no literal stands for a slot without text.
pub open spec fn line_of(index: nat, literal: Option<Seq<char>>) -> Seq<char> {
    match literal {
        Some(quoted_text) => "    "@ + decimal(index) + ": Some("@ + quoted_text + "),\n"@,
        None => "    "@ + decimal(index) + ": None,\n"@,
    }
}

/// The line of the slot numbered `index`: its text stands in the line as a
/// quoted and escaped literal.
pub open spec fn slot_line(index: nat, slot: Option<Seq<char>>) -> Seq<char> {
    match slot {
        Some(text) => line_of(index, Some(debug_quoted(text))),
        None => line_of(index, None),
    }
}

/// The lines of `slots`, the first of them numbered `first`.
pub open spec fn slot_lines(slots: Seq<Option<Seq<char>>>, first: nat) -> Seq<char>
    decreases slots.len(),
{
    if slots.len() == 0 {
        Seq::empty()
    } else {
        slot_line(first, slots[0]) + slot_lines(slots.drop_first(), first + 1)
    }
}

/// The block of one match: its slots between the opening and the closing line.
pub open spec fn match_block(slots: Seq<Option<Seq<char>>>) -> Seq<char> {
    "Some(Captures({\n"@ + slot_lines(slots, 0) + "})),\n"@
}

/// The blocks of `matches`, one after the other.
pub open spec fn match_blocks(matches: Seq<Seq<Option<Seq<char>>>>) -> Seq<char>
    decreases matches.len(),
{
    if matches.len() == 0 {
        Seq::empty()
    } else {
        match_block(matches[0]) + match_blocks(matches.drop_first())
    }
}

/// The report of a search that found `matches`.
pub open spec fn report_text(matches: Seq<Seq<Option<Seq<char>>>>) -> Seq<char> {
    if matches.len() == 0 {
        NO_MATCH@
    } else {
        match_blocks(matches)
    }
}

/// Appends the line of the slot numbered `index`, whose text, written as a
/// literal, is `literal`; `None` for a slot without text.
pub fn push_line(buffer: &mut String, index: usize, literal: Option<&str>)
    ensures
        final(buffer)@ == old(buffer)@ + line_of(
            index as nat,
            match literal {
                Some(quoted_text) => Some(quoted_text@),
                None => None,
            },
        ),
{
    buffer.append("    ");
    push_decimal(buffer, index);
    match literal {
        Some(quoted_text) => {
            buffer.append(": Some(");
            buffer.append(quoted_text);
            buffer.append("),\n");
            assert(buffer@ =~= old(buffer)@ + line_of(index as nat, Some(quoted_text@)));
        },
        None => {
            buffer.append(": None,\n");
            assert(buffer@ =~= old(buffer)@ + line_of(index as nat, None));
        },
    }
}

/// Appends the line of the slot numbered `index`.
fn push_slot(buffer: &mut String, index: usize, slot: &Option<String>)
    ensures
        final(buffer)@ == old(buffer)@ + slot_line(index as nat, slot.deep_view()),
{
    match slot {
        Some(text) => {
            let literal = quoted(text.as_str());
            push_line(buffer, index, Some(literal.as_str()));
        },
        None => {
            push_line(buffer, index, None);
        },
    }
}

/// Appends the block of one match.
fn push_block(buffer: &mut String, slots: &Vec<Option<String>>)
    ensures
        final(buffer)@ == old(buffer)@ + match_block(slots.deep_view()),
{
    buffer.append("Some(Captures({\n");
    let ghost head = buffer@;
    let ghost all = slots.deep_view();
    let mut j: usize = 0;
    assert(all.skip(0) =~= all);
    while j < slots.len()
        invariant
            j <= slots@.len(),
            all == slots.deep_view(),
            all.len() == slots@.len(),
            buffer@ + slot_lines(all.skip(j as int), j as nat) == head + slot_lines(all, 0),
        decreases slots@.len() - j,
    {
        proof {
            let rest = all.skip(j as int);
            assert(rest[0] == slots@[j as int].deep_view());
            assert(rest.drop_first() =~= all.skip(j + 1));
            assert((buffer@ + slot_line(j as nat, rest[0])) + slot_lines(
                rest.drop_first(),
                (j + 1) as nat,
            ) =~= buffer@ + slot_lines(rest, j as nat));
        }
        push_slot(buffer, j, &slots[j]);
        j += 1;
    }
    assert(buffer@ =~= head + slot_lines(all, 0));
    buffer.append("})),\n");
    assert(buffer@ =~= old(buffer)@ + match_block(all));
}

/// Renders the matches of a search as a report.
///
/// The report is the word `None` if there is no match. Otherwise it holds
/// one block per match, in the order of `matches`, and in each block one
/// line per slot, numbered from 0 in the order of the slots.
pub fn format_matches(matches: &Matches) -> (report: String)
    ensures
        report@ == report_text(matches.deep_view()),
{
    if matches.len() == 0 {
        return String::from_str(NO_MATCH);
    }
    let mut report = String::new();
    let ghost all = matches.deep_view();
    let mut i: usize = 0;
    assert(all.skip(0) =~= all);
    while i < matches.len()
        invariant
            i <= matches@.len(),
            all == matches.deep_view(),
            all.len() == matches@.len(),
            report@ + match_blocks(all.skip(i as int)) == match_blocks(all),
        decreases matches@.len() - i,
    {
        proof {
            let rest = all.skip(i as int);
            assert(rest[0] == matches@[i as int].deep_view());
            assert(rest.drop_first() =~= all.skip(i + 1));
            assert((report@ + match_block(rest[0])) + match_blocks(rest.drop_first())
                =~= report@ + match_blocks(rest));
        }
        push_block(&mut report, &matches[i]);
        i += 1;
    }
    assert(report@ =~= match_blocks(all));
    report
}

} // verus!
