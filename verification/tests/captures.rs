use rustexp::captures::{extract_matches, span_text, EncodingError};

#[test]
fn span_text_reads_the_bytes_between_the_offsets() {
    let subject = "a caf\u{e9}!".as_bytes();
    assert_eq!(span_text(subject, 0, 1), Some("a".to_string()));
    assert_eq!(span_text(subject, 2, 7), Some("caf\u{e9}".to_string()));
    assert_eq!(span_text(subject, 0, subject.len()), Some("a caf\u{e9}!".to_string()));
    assert_eq!(span_text(subject, 3, 3), Some(String::new()));
}

#[test]
fn span_text_refuses_a_split_character() {
    let subject = "caf\u{e9}!".as_bytes();
    assert_eq!(span_text(subject, 0, 4), None);
    assert_eq!(span_text(subject, 4, 5), None);
    assert_eq!(span_text(subject, 4, 6), None);
    assert_eq!(span_text(&[0xff, 0x61], 0, 2), None);
}

#[test]
fn span_text_of_an_empty_span_is_empty_anywhere() {
    let subject = "\u{e9}".as_bytes();
    assert_eq!(span_text(subject, 1, 1), Some(String::new()));
    assert_eq!(span_text(subject, 2, 2), Some(String::new()));
}

#[test]
fn extract_matches_keeps_rows_and_absent_groups() {
    let subject = "a ab".as_bytes();
    let spans = vec![
        vec![Some((0, 1)), Some((0, 1)), None],
        vec![Some((2, 4)), Some((2, 3)), Some((3, 4))],
    ];
    assert_eq!(
        extract_matches(subject, &spans),
        Ok(vec![
            vec![Some("a".to_string()), Some("a".to_string()), None],
            vec![Some("ab".to_string()), Some("a".to_string()), Some("b".to_string())],
        ])
    );
}

#[test]
fn extract_matches_of_no_spans_is_empty() {
    assert_eq!(extract_matches(b"abc", &Vec::new()), Ok(Vec::new()));
    assert_eq!(extract_matches(b"", &vec![Vec::new()]), Ok(vec![Vec::new()]));
}

#[test]
fn extract_matches_names_the_first_span_that_is_not_text() {
    let subject = "x\u{e9}y\u{e9}".as_bytes();
    let spans = vec![
        vec![Some((0, 1)), None],
        vec![Some((1, 3)), Some((1, 2)), Some((2, 3))],
        vec![Some((4, 5))],
    ];
    assert_eq!(
        extract_matches(subject, &spans),
        Err(EncodingError { match_index: 1, group: 1 })
    );
    let spans = vec![vec![Some((0, 2))], vec![Some((0, 1))]];
    assert_eq!(
        extract_matches(subject, &spans),
        Err(EncodingError { match_index: 0, group: 0 })
    );
}
