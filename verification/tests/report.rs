use rustexp::report::{format_matches, push_line, NO_MATCH};

fn slot(text: &str) -> Option<String> {
    Some(text.to_string())
}

#[test]
fn no_matches_render_as_the_marker() {
    assert_eq!(format_matches(&Vec::new()), "None");
    assert_eq!(NO_MATCH, "None");
}

#[test]
fn one_match_renders_as_one_block() {
    let matches = vec![vec![slot("ab"), slot("a"), None]];
    assert_eq!(
        format_matches(&matches),
        "Some(Captures({\n    0: Some(\"ab\"),\n    1: Some(\"a\"),\n    2: None,\n})),\n"
    );
}

#[test]
fn blocks_follow_the_order_of_the_matches() {
    let matches = vec![vec![slot("z")], vec![slot("a")], vec![slot("m")]];
    assert_eq!(
        format_matches(&matches),
        "Some(Captures({\n    0: Some(\"z\"),\n})),\n\
         Some(Captures({\n    0: Some(\"a\"),\n})),\n\
         Some(Captures({\n    0: Some(\"m\"),\n})),\n"
    );
}

#[test]
fn slots_are_numbered_in_decimal_from_zero() {
    let row: Vec<Option<String>> = (0..12).map(|_| None).collect();
    let report = format_matches(&vec![row]);
    let mut expected = String::from("Some(Captures({\n");
    for index in ["0", "1", "2", "3", "4", "5", "6", "7", "8", "9", "10", "11"] {
        expected.push_str("    ");
        expected.push_str(index);
        expected.push_str(": None,\n");
    }
    expected.push_str("})),\n");
    assert_eq!(report, expected);
}

#[test]
fn a_match_without_slots_renders_as_an_empty_block() {
    assert_eq!(format_matches(&vec![Vec::new()]), "Some(Captures({\n})),\n");
}

#[test]
fn text_is_quoted_and_escaped() {
    let matches = vec![vec![
        slot(""),
        slot("plain"),
        slot("say \"hi\""),
        slot("back\\slash"),
        slot("tab\there"),
        slot("line\nbreak"),
        slot("\r\0"),
        slot("\u{7f}\u{1b}"),
        slot("it's"),
        slot("caf\u{e9} \u{4e16}\u{754c} \u{1f4a9}"),
    ]];
    let expected = "Some(Captures({\n\
                    \x20   0: Some(\"\"),\n\
                    \x20   1: Some(\"plain\"),\n\
                    \x20   2: Some(\"say \\\"hi\\\"\"),\n\
                    \x20   3: Some(\"back\\\\slash\"),\n\
                    \x20   4: Some(\"tab\\there\"),\n\
                    \x20   5: Some(\"line\\nbreak\"),\n\
                    \x20   6: Some(\"\\r\\0\"),\n\
                    \x20   7: Some(\"\\u{7f}\\u{1b}\"),\n\
                    \x20   8: Some(\"it's\"),\n\
                    \x20   9: Some(\"caf\u{e9} \u{4e16}\u{754c} \u{1f4a9}\"),\n\
                    })),\n";
    assert_eq!(format_matches(&matches), expected);
}

#[test]
fn text_that_looks_like_a_block_stays_inside_its_quotes() {
    let matches = vec![vec![slot("})),\nNone")]];
    assert_eq!(
        format_matches(&matches),
        "Some(Captures({\n    0: Some(\"})),\\nNone\"),\n})),\n"
    );
}

#[test]
fn push_line_writes_index_and_literal() {
    let mut buffer = String::from(">");
    push_line(&mut buffer, 0, Some("\"a\""));
    push_line(&mut buffer, 12, None);
    push_line(&mut buffer, 3, Some(""));
    assert_eq!(buffer, ">    0: Some(\"a\"),\n    12: None,\n    3: Some(),\n");
}
