use genco::common::edited_text::edited_bytes;
use genco::common::file_overwriting::FileEdit;

fn apply(text: &str, edits: Vec<FileEdit>) -> String {
    String::from_utf8(edited_bytes(text.as_bytes(), &edits)).unwrap()
}

#[test]
fn edits_are_applied_in_the_order_of_their_positions() {
    let edits = vec![
        FileEdit::InsertAt { at: 6, content: "big ".to_string() },
        FileEdit::Replace { start: 0, end: 5, content: "Hi".to_string() },
    ];
    assert_eq!(apply("hello world", edits), "Hi big world");
}

#[test]
fn edits_at_one_position_keep_their_recorded_order() {
    let edits = vec![
        FileEdit::InsertAt { at: 1, content: "x".to_string() },
        FileEdit::InsertWithPreviousNewlineAt { at: 1, content: "y".to_string() },
    ];
    assert_eq!(apply("ab", edits), "ax\nyb");
}

#[test]
fn appended_texts_come_last() {
    let edits = vec![
        FileEdit::AppendWithPreviousNewline { content: "tail".to_string() },
        FileEdit::InsertAt { at: 0, content: ">".to_string() },
        FileEdit::Append { content: "!".to_string() },
    ];
    assert_eq!(apply("body", edits), ">body\ntail!");
}

#[test]
fn a_replacement_inside_an_earlier_one_only_adds_its_content() {
    let edits = vec![
        FileEdit::Replace { start: 0, end: 4, content: "AB".to_string() },
        FileEdit::Replace { start: 2, end: 3, content: "c".to_string() },
    ];
    assert_eq!(apply("abcdef", edits), "ABcef");
}

#[test]
fn no_edits_leave_the_text_unchanged() {
    assert_eq!(apply("same", Vec::new()), "same");
}
