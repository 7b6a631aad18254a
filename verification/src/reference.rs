//! The two reference tables that accompany the tester: the syntax of
//! patterns, and the modifiers that a pattern can switch on and off.

use vstd::prelude::*;

verus! {

/// One entry of a reference table: a piece of pattern syntax and what it
/// means.
#[derive(Debug, Clone, Copy, PartialEq, Eq)]
pub struct Code {
    pub code: &'static str,
    pub desc: &'static str,
}

impl View for Code {
    type V = (Seq<char>, Seq<char>);

    open spec fn view(&self) -> (Seq<char>, Seq<char>) {
        (self.code@, self.desc@)
    }
}

impl DeepView for Code {
    type V = (Seq<char>, Seq<char>);

    open spec fn deep_view(&self) -> (Seq<char>, Seq<char>) {
        self@
    }
}

/// The modifiers, each with its meaning, in the order of the table.
pub open spec fn modifier_entries() -> Seq<(Seq<char>, Seq<char>)> {
    seq![
        ("u"@, "unicode"@),
        ("i"@, "case insensitive"@),
        ("s"@, "dot matches newline"@),
        ("m"@, "multiline"@),
        ("x"@, "whitespace ignored"@),
        ("f"@, "start on first line"@),
        ("r"@, "inverts greediness"@),
    ]
}

/// The pieces of pattern syntax, each with its meaning, in the order of the
/// table.
pub open spec fn reference_entries() -> Seq<(Seq<char>, Seq<char>)> {
    seq![
        ("."@, "non-newline char"@),
        ("^"@, "start of line"@),
        ("$"@, "end of line"@),
        ("\\b"@, "word boundary"@),
        ("\\B"@, "non-word boundary"@),
        ("\\A"@, "start of subject"@),
        ("\\z"@, "end of subject"@),
        ("\\d"@, "decimal digit"@),
        ("\\D"@, "non-decimal digit"@),
        ("\\s"@, "whitespace"@),
        ("\\S"@, "non-whitespace"@),
        ("\\w"@, "word character"@),
        ("\\W"@, "non-word character"@),
        ("(a|z)"@, "a or z"@),
        ("[az]"@, "a or z"@),
        ("[^az]"@, "not a or z"@),
        ("[a-z]"@, "a through z"@),
        ("(foo)"@, "capture foo"@),
        ("a?"@, "0 or 1 a"@),
        ("a*"@, "0 or more a"@),
        ("a+"@, "1 or more a"@),
        ("a{3}"@, "3 of a"@),
        ("a{3,}"@, "3 or more a"@),
        ("a{3,5}"@, "3 through 5 a"@),
    ]
}

/// The table of modifiers.
pub fn get_modifiers() -> (table: Vec<Code>)
    ensures
        table.deep_view() == modifier_entries(),
{
    let table = vec![
        Code { code: "u", desc: "unicode" },
        Code { code: "i", desc: "case insensitive" },
        Code { code: "s", desc: "dot matches newline" },
        Code { code: "m", desc: "multiline" },
        Code { code: "x", desc: "whitespace ignored" },
        Code { code: "f", desc: "start on first line" },
        Code { code: "r", desc: "inverts greediness" },
    ];
    assert(table.deep_view() =~= modifier_entries());
    table
}

/// The table of pattern syntax.
pub fn get_reference() -> (table: Vec<Code>)
    ensures
        table.deep_view() == reference_entries(),
{
    let table = vec![
        Code { code: ".", desc: "non-newline char" },
        Code { code: "^", desc: "start of line" },
        Code { code: "$", desc: "end of line" },
        Code { code: "\\b", desc: "word boundary" },
        Code { code: "\\B", desc: "non-word boundary" },
        Code { code: "\\A", desc: "start of subject" },
        Code { code: "\\z", desc: "end of subject" },
        Code { code: "\\d", desc: "decimal digit" },
        Code { code: "\\D", desc: "non-decimal digit" },
        Code { code: "\\s", desc: "whitespace" },
        Code { code: "\\S", desc: "non-whitespace" },
        Code { code: "\\w", desc: "word character" },
        Code { code: "\\W", desc: "non-word character" },
        Code { code: "(a|z)", desc: "a or z" },
        Code { code: "[az]", desc: "a or z" },
        Code { code: "[^az]", desc: "not a or z" },
        Code { code: "[a-z]", desc: "a through z" },
        Code { code: "(foo)", desc: "capture foo" },
        Code { code: "a?", desc: "0 or 1 a" },
        Code { code: "a*", desc: "0 or more a" },
        Code { code: "a+", desc: "1 or more a" },
        Code { code: "a{3}", desc: "3 of a" },
        Code { code: "a{3,}", desc: "3 or more a" },
        Code { code: "a{3,5}", desc: "3 through 5 a" },
    ];
    assert(table.deep_view() =~= reference_entries());
    table
}

} // verus!
