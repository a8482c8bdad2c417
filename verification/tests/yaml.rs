use genco::common::file_overwriting::FileEdit;
use genco::yaml::parser::dto::yaml_node_type::YamlNodeType;
use genco::yaml::parser::writer::yaml_writer::overwrite;
use genco::yaml::parser::yaml_parser::parse;

#[test]
fn yaml_root_is_a_stream() {
    let root = parse("key: value\n", "a.yaml").expect("The document parses");

    assert_eq!(Some(YamlNodeType::Stream), root.get_node_type());
    assert_eq!("a.yaml", root.get_file_path());
    assert_eq!("key: value\n", root.get_content());
}

#[test]
fn merging_an_empty_document_changes_nothing() {
    let original = parse("key: value\n", "original.yaml").expect("The document parses");
    let to_add = parse("", "to_add.yaml").expect("The document parses");

    let edits = overwrite(&original, &to_add);

    assert_eq!("original.yaml", edits.get_input_file());
    assert!(edits.get_edits().is_empty());
}

#[test]
fn merging_a_new_key_appends_it() {
    let original = parse("name: demo\n", "original.yaml").expect("The document parses");
    let to_add = parse("version: 2\n", "to_add.yaml").expect("The document parses");

    let edits = overwrite(&original, &to_add);

    assert_eq!(1, edits.get_edits().len());
    match &edits.get_edits()[0] {
        FileEdit::AppendWithPreviousNewline { content } => assert_eq!("version: 2", content),
        _ => panic!("A new top-level key is appended"),
    }
}

#[test]
fn merging_a_known_key_replaces_its_value() {
    let original = parse("name: demo\n", "original.yaml").expect("The document parses");
    let to_add = parse("name: other\n", "to_add.yaml").expect("The document parses");

    let edits = overwrite(&original, &to_add);

    assert_eq!(1, edits.get_edits().len());
    match &edits.get_edits()[0] {
        FileEdit::Replace { start, end, content } => {
            assert_eq!(6, *start);
            assert_eq!(10, *end);
            assert_eq!("other", content);
        }
        _ => panic!("The value of a known key is replaced"),
    }
}

#[test]
fn merging_a_sequence_adds_missing_items() {
    let original = parse("items:\n  - a\n  - b\n", "original.yaml").expect("The document parses");
    let to_add = parse("items:\n  - b\n  - c\n", "to_add.yaml").expect("The document parses");

    let edits = overwrite(&original, &to_add);

    let inserted: Vec<String> = edits
        .get_edits()
        .iter()
        .filter_map(|e| match e {
            FileEdit::InsertWithPreviousNewlineAt { content, .. } => Some(content.clone()),
            _ => None,
        })
        .collect();
    assert_eq!(vec!["  - c".to_string()], inserted);
}
