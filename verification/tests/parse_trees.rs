use genco::common::syntax_tree::{text_between, text_between_or_empty, SyntaxTree};
use genco::java::parser::java_node_type::JavaNodeType;
use genco::java::parser::java_parser::java_parser::{node_from_tree, parse};
use genco::java::scanner::file::dto::java_imports::JavaImports;
use genco::yaml::parser::dto::yaml_node_type::YamlNodeType;
use genco::yaml::parser::yaml_parser::{node_from_tree as yaml_node_from_tree, parse as parse_yaml};

fn leaf(kind: &str, start: usize, end: usize, column: usize) -> SyntaxTree {
    SyntaxTree { kind: kind.to_string(), start_byte: start, end_byte: end, start_column: column, children: Vec::new() }
}

#[test]
fn java_nodes_are_made_node_for_node() {
    let source = "package a;";
    let tree = SyntaxTree {
        kind: "program".to_string(),
        start_byte: 0,
        end_byte: 10,
        start_column: 0,
        children: vec![SyntaxTree {
            kind: "package_declaration".to_string(),
            start_byte: 0,
            end_byte: 10,
            start_column: 0,
            children: vec![leaf("package", 0, 7, 0), leaf("identifier", 8, 9, 8), leaf("no_such_kind", 9, 10, 9)],
        }],
    };
    let root = node_from_tree(&tree, "A.java", source);
    assert_eq!(Some(JavaNodeType::Program), root.get_node_type());
    assert_eq!(1, root.get_children().len());
    let declaration = &root.get_children()[0];
    assert_eq!(Some(JavaNodeType::PackageDecl), declaration.get_node_type());
    let pieces = declaration.get_children();
    assert_eq!(3, pieces.len());
    assert_eq!("a", pieces[1].get_content());
    assert_eq!(8, pieces[1].get_start_byte());
    assert_eq!(None, pieces[2].get_node_type());
    assert_eq!(";", pieces[2].get_content());
}

#[test]
fn java_text_outside_the_source_is_empty() {
    let root = node_from_tree(&leaf("identifier", 3, 40, 0), "A.java", "abc");
    assert_eq!("", root.get_content());
}

#[test]
fn parse_gives_the_java_syntax_tree() {
    let root = parse("package org.test;\n\nclass A {\n}\n", "A.java").unwrap();
    assert_eq!(Some(JavaNodeType::Program), root.get_node_type());
    let children = root.get_children();
    assert_eq!(Some(JavaNodeType::PackageDecl), children[0].get_node_type());
    assert_eq!("package org.test;", children[0].get_content());
    assert_eq!(Some(JavaNodeType::ClassDecl), children[1].get_node_type());
    assert_eq!(19, children[1].get_start_byte());
}

#[test]
fn yaml_nodes_are_made_node_for_node() {
    let source = "a:\n  b: c\n";
    let tree = SyntaxTree {
        kind: "block_mapping_pair".to_string(),
        start_byte: 5,
        end_byte: 9,
        start_column: 2,
        children: vec![leaf("flow_node", 5, 6, 2), leaf(":", 6, 7, 3)],
    };
    let node = yaml_node_from_tree(&tree, "a.yaml", source);
    assert_eq!(Some(YamlNodeType::BlockMappingPair), node.get_node_type());
    assert_eq!("b: c", node.get_content());
    assert_eq!("  b: c", node.get_content_bytes_with_previous_empty_space());
    assert_eq!(Some(YamlNodeType::Colon), node.get_children()[1].get_node_type());
}

#[test]
fn parse_gives_the_yaml_syntax_tree() {
    let root = parse_yaml("a: b\n", "a.yaml").unwrap();
    assert_eq!(Some(YamlNodeType::Stream), root.get_node_type());
    assert_eq!(1, root.get_children().len());
}

#[test]
fn imports_are_sorted_by_kind() {
    let root = parse("import a.b.C;\nimport d.e.*;\n", "A.java").unwrap();
    let mut imports = JavaImports::new();
    for child in root.get_children() {
        imports.insert_import(child.clone());
    }
    assert_eq!(2, imports.count());
}

#[test]
fn text_between_follows_characters() {
    assert_eq!(Some("é".to_string()), text_between("héllo", 1, 3));
    assert_eq!(None, text_between("héllo", 1, 2));
    assert_eq!(None, text_between("héllo", 3, 9));
    assert_eq!("", text_between_or_empty("héllo", 2, 4));
    assert_eq!("llo", text_between_or_empty("héllo", 3, 6));
}

#[test]
fn non_ascii_sources_keep_their_texts() {
    let root = parse("// é\npackage a.b;\n", "A.java").unwrap();
    let package = root
        .get_children()
        .iter()
        .find(|c| c.get_node_type() == Some(JavaNodeType::PackageDecl))
        .unwrap();
    assert_eq!("package a.b;", package.get_content());
}
