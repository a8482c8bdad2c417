use genco::common::file_cache::FileCache;
use genco::common::file_overwriting::{FileEdit, FileOverwriting};
use genco::java::dependency::org::springframework::spring_context::java_spring_context_factory::_create_service_annotation_usage;
use genco::java::dto::java_class::JavaClass;
use genco::java::dto::java_import::JavaImport;
use genco::java::dto::java_visibility::JavaVisibility;
use genco::java::interface::JavaInterface;
use genco::java::method::JavaMethod;
use genco::java::parser::java_node_type::JavaNodeType;
use genco::java::scanner::file::java_file_imports::JavaFileImports;
use genco::java::parser::java_node::JavaNode;
use genco::common::syntax_tree::SyntaxTree;
use genco::java::parser::java_parser::java_parser::{node_from_tree, parse};
use genco::java::record::JavaRecord;
use genco::java::scanner::file::java_file::JavaFile;
use genco::java::scanner::file::java_structure::JavaStructure;
use genco::java::scanner::file::java_structure_type::JavaStructureType;

const ROOT: &str = "/project/src/main/java/org/test";

fn path_of(name: &str) -> String {
    format!("{}/{}.java", ROOT, name)
}

fn scan_with_project(name: &str, source: &str, project: &Vec<String>) -> (JavaFile, JavaNode) {
    let path = path_of(name);
    let root = parse(source, &path).expect("The source parses");
    let cache = FileCache::new(&path, source, project);
    let file = JavaFile::from_parsed(&path, &root, &cache)
        .expect("The structure is readable")
        .expect("The file declares a structure");
    (file, root)
}

fn scan(name: &str, source: &str) -> (JavaFile, JavaNode) {
    scan_with_project(name, source, &vec![path_of(name)])
}

fn apply_single_edit(text: &str, edits: &FileOverwriting) -> String {
    assert_eq!(1, edits.get_edits().len());
    match &edits.get_edits()[0] {
        FileEdit::Replace { start, end, content } => format!("{}{}{}", &text[..*start], content, &text[*end..]),
        FileEdit::InsertAt { at, content } => format!("{}{}{}", &text[..*at], content, &text[*at..]),
        FileEdit::InsertWithPreviousNewlineAt { at, content } => {
            format!("{}\n{}{}", &text[..*at], content, &text[*at..])
        }
        FileEdit::Append { content } => format!("{}{}", text, content),
        FileEdit::AppendWithPreviousNewline { content } => format!("{}\n{}", text, content),
    }
}

const JAVA_CLASS_FROM: &str = "package org.test;\n\npublic class JavaClassFrom {\n}\n";
const JAVA_INTERFACE_FOR_CLASS: &str = "package org.test;\n\npublic interface JavaInterfaceForClass {\n}\n";
const FULL_JAVA_SERVICE: &str = "package org.test;

import org.test.JavaClassFrom;
import org.test.JavaInterfaceForClass;

public class FullJavaService extends JavaClassFrom implements JavaInterfaceForClass {
}
";

#[test]
fn new_from_path_class() {
    let project = vec![path_of("FullJavaService"), path_of("JavaClassFrom"), path_of("JavaInterfaceForClass")];
    let (parent, _) = scan_with_project("JavaClassFrom", JAVA_CLASS_FROM, &project);
    let (interface, _) = scan_with_project("JavaInterfaceForClass", JAVA_INTERFACE_FOR_CLASS, &project);
    let (file, _) = scan_with_project("FullJavaService", FULL_JAVA_SERVICE, &project);
    let scanned = vec![parent, interface];

    match JavaClass::from(file) {
        Ok(java_class) => {
            assert_eq!("FullJavaService", java_class.get_name());
            if let Some(extended_class) = java_class.get_extended_class(&scanned) {
                assert_eq!("JavaClassFrom", extended_class.get_name());
            } else {
                panic!("Extended class expected");
            }

            let interfaces = java_class.get_implemented_interfaces(&scanned);
            assert_eq!(1, interfaces.len());
            if let Some(interface) = interfaces.get(0) {
                assert_eq!("JavaInterfaceForClass", interface.get_name());
            } else {
                panic!("Extended interface expected");
            }
        }
        Err(err) => panic!("{}", err),
    }
}

#[test]
fn class_with_static_method() {
    let source = "package org.test;

public class ClassWithStaticMethod {

    public static void staticMethod() {
    }
}
";
    let (file, _) = scan("ClassWithStaticMethod", source);

    match JavaClass::from(file) {
        Ok(java_class) => {
            assert_eq!("ClassWithStaticMethod", java_class.get_name());
            assert_eq!(1, java_class.get_methods().len());
            if let Some(method) = java_class.get_methods().get(0) {
                assert_eq!(JavaVisibility::Public, method.get_visibility());
                assert!(method.is_static());
                assert_eq!("staticMethod", method.get_name());
            }
        }
        Err(error_msg) => panic!("{}", error_msg),
    }
}

#[test]
fn new_from_path_interface() {
    let source = "package org.test;\n\npublic interface JavaInterfaceFrom {\n}\n";
    let (file, _) = scan("JavaInterfaceFrom", source);

    match JavaInterface::from(file) {
        Ok(java_class) => assert_eq!("JavaInterfaceFrom", java_class.get_name()),
        Err(err) => panic!("{}", err),
    }
}

#[test]
fn class_is_no_interface() {
    let (file, _) = scan("JavaClassFrom", JAVA_CLASS_FROM);

    match JavaInterface::from(file.clone()) {
        Ok(_) => panic!("A class is no interface"),
        Err(e) => assert_eq!(
            "Expected java interface, found java Class".to_string(),
            e
        ),
    }
    assert!(JavaRecord::from(file.clone()).is_err());
    assert!(JavaClass::from(file).is_ok());
}

#[test]
fn file_without_structure_is_refused() {
    let path = path_of("Invalid");
    let source = "package org.test;\n";
    let root = parse(source, &path).expect("The source parses");
    let cache = FileCache::new(&path, source, &vec![path.clone()]);

    match JavaFile::from_parsed(&path, &root, &cache) {
        Some(Err(e)) => assert_eq!(format!("Java structure not found in file:\n\t\"{}\"\n", path), e),
        _ => panic!("It should not return a valid java file struct"),
    }
}

#[test]
fn file_outside_a_project_is_refused() {
    let path = "/tmp/Loose.java";
    let source = "public class Loose {\n}\n";
    let root = parse(source, path).expect("The source parses");
    let cache = FileCache::new(path, source, &vec![]);

    match JavaFile::from_parsed(path, &root, &cache) {
        Some(Err(e)) => assert_eq!("Invalid java project file:\n\"/tmp/Loose.java\"\n", e),
        _ => panic!("A file outside a project is refused"),
    }
}

fn test_copy_to_output_folder(structure_name: &str, source: &str, expected: &str) {
    let (input_java_file, root) = scan(structure_name, source);
    let output_folder = format!("{}/copy_to_output_folder_test", ROOT);

    match input_java_file.copy_to_output_folder(&output_folder, &root) {
        Ok((copied_path, edits)) => {
            assert_eq!(format!("{}/{}.java", output_folder, structure_name), copied_path);
            let copied_import =
                JavaImport::new_explicit_import_from_file(&copied_path).expect("The copy lies in the project");
            assert_eq!(structure_name, copied_import.get_last_node());
            assert_eq!(expected, apply_single_edit(source, &edits));
        }
        Err(err) => panic!("{}", err),
    }
}

#[test]
fn copy_to_output_folder_succeed() {
    test_copy_to_output_folder(
        "CopyToOutputFolder",
        "package org.test;\n\npublic class CopyToOutputFolder {\n}\n",
        "package org.test.copy_to_output_folder_test;\n\npublic class CopyToOutputFolder {\n}\n",
    );
}

#[test]
fn copy_to_output_folder_file_without_package_succeed() {
    test_copy_to_output_folder(
        "CopyToOutputFolderWithoutPackage",
        "public class CopyToOutputFolderWithoutPackage {\n}\n",
        "package org.test.copy_to_output_folder_test;\n\npublic class CopyToOutputFolderWithoutPackage {\n}\n",
    );
}

fn parent_and_interfaces() -> (JavaFile, Vec<JavaFile>) {
    let names = ["JavaParentClassForStructure", "JavaInterfaceForStructure", "JavaInterfaceForStructure1", "JavaInterfaceForStructure2"];
    let project: Vec<String> = names.iter().map(|n| path_of(n)).collect();
    let (parent, _) = scan_with_project(
        "JavaParentClassForStructure",
        "package org.test;\n\npublic class JavaParentClassForStructure {\n}\n",
        &project,
    );
    let mut interfaces = Vec::new();
    for name in &names[1..] {
        let source = format!("package org.test;\n\npublic interface {} {{\n}}\n", name);
        interfaces.push(scan_with_project(name, &source, &project).0);
    }
    (parent, interfaces)
}

fn interface_import(interfaces: &Vec<JavaFile>, name: &str) -> JavaImport {
    interfaces
        .iter()
        .find(|f| f.get_structure().get_name() == name)
        .expect("The interface was scanned")
        .get_self_import()
}

fn scanned_files() -> Vec<JavaFile> {
    let (parent, interfaces) = parent_and_interfaces();
    let mut all = vec![parent];
    all.extend(interfaces);
    all
}

#[test]
fn builder_test() {
    let (parent, interfaces) = parent_and_interfaces();
    let scanned = scanned_files();
    match JavaStructure::builder()
        .structure_type(JavaStructureType::Class)
        .is_final(true)
        .visibility(JavaVisibility::Public)
        .name("JavaChildServiceImpl")
        .implemented_interfaces(vec![interface_import(&interfaces, "JavaInterfaceForStructure")])
        .extended_classes(vec![parent.get_self_import()])
        .build()
    {
        Ok(structure) => {
            assert_eq!(JavaStructureType::Class, structure.get_type());
            assert_eq!(0, structure.get_annotations().len());
            assert_eq!(JavaVisibility::Public, structure.get_visibility());
            assert!(!structure.is_static());
            assert!(structure.is_final());
            assert!(!structure.is_abstract());
            assert_eq!("JavaChildServiceImpl", structure.get_name());
            assert!(structure.get_extended_class(&scanned).is_some());
            assert_eq!(1, structure.get_implemented_interfaces(&scanned).len());
            assert_eq!(0, structure.get_fields().len());
            assert_eq!(0, structure.get_methods().len());
            assert_eq!(2, structure.get_imports(&scanned).len());
        }
        Err(err) => panic!("{}", err),
    }
}

#[test]
fn generate_public_abstract_class_with_interface() {
    let (_, interfaces) = parent_and_interfaces();
    let scanned = scanned_files();
    match JavaStructure::builder()
        .structure_type(JavaStructureType::Class)
        .visibility(JavaVisibility::Public)
        .is_static(true)
        .is_abstract(true)
        .name("JavaServiceAbstract")
        .implemented_interfaces(vec![interface_import(&interfaces, "JavaInterfaceForStructure")])
        .build()
    {
        Ok(structure) => {
            assert_eq!(JavaStructureType::Class, structure.get_type());
            assert_eq!(0, structure.get_annotations().len());
            assert_eq!(JavaVisibility::Public, structure.get_visibility());
            assert!(structure.is_static());
            assert!(structure.is_abstract());
            assert_eq!("JavaServiceAbstract", structure.get_name());
            assert!(structure.get_extended_class(&scanned).is_none());
            assert_eq!(1, structure.get_implemented_interfaces(&scanned).len());
            assert_eq!(0, structure.get_fields().len());
            assert_eq!(0, structure.get_methods().len());
            assert_eq!(1, structure.get_imports(&scanned).len());
        }
        Err(err) => panic!("{}", err),
    }
}

#[test]
fn generate_package_class_with_interfaces_and_extension() {
    let (parent, interfaces) = parent_and_interfaces();
    let scanned = scanned_files();
    let implemented = vec![
        interface_import(&interfaces, "JavaInterfaceForStructure1"),
        interface_import(&interfaces, "JavaInterfaceForStructure2"),
    ];

    match JavaStructure::builder()
        .structure_type(JavaStructureType::Class)
        .visibility(JavaVisibility::Package)
        .name("PackageClassWithInterfacesAndExtension")
        .implemented_interfaces(implemented)
        .extended_classes(vec![parent.get_self_import()])
        .build()
    {
        Ok(structure) => {
            assert_eq!(JavaStructureType::Class, structure.get_type());
            assert_eq!(0, structure.get_annotations().len());
            assert_eq!(JavaVisibility::Package, structure.get_visibility());
            assert!(!structure.is_static());
            assert!(!structure.is_final());
            assert!(!structure.is_abstract());
            assert_eq!("PackageClassWithInterfacesAndExtension", structure.get_name());
            assert!(structure.get_extended_class(&scanned).is_some());
            assert_eq!(2, structure.get_implemented_interfaces(&scanned).len());
            assert_eq!(0, structure.get_fields().len());
            assert_eq!(0, structure.get_methods().len());
            assert_eq!(3, structure.get_imports(&scanned).len());
        }
        Err(err) => panic!("{}", err),
    }
}

#[test]
fn generate_class_with_annotation() {
    let annotations = vec![_create_service_annotation_usage()];
    let scanned = scanned_files();

    match JavaStructure::builder()
        .structure_type(JavaStructureType::Class)
        .visibility(JavaVisibility::Protected)
        .name("JavaServiceBean")
        .annotations(annotations)
        .build()
    {
        Ok(structure) => {
            assert_eq!(JavaStructureType::Class, structure.get_type());
            assert_eq!(1, structure.get_annotations().len());
            assert_eq!(JavaVisibility::Protected, structure.get_visibility());
            assert!(!structure.is_static());
            assert!(!structure.is_final());
            assert!(!structure.is_abstract());
            assert_eq!("JavaServiceBean", structure.get_name());
            assert!(structure.get_extended_class(&scanned).is_none());
            assert_eq!(0, structure.get_implemented_interfaces(&scanned).len());
            assert_eq!(0, structure.get_fields().len());
            assert_eq!(0, structure.get_methods().len());
            assert_eq!(1, structure.get_imports(&scanned).len());
        }
        Err(err) => panic!("{}", err),
    };
}

#[test]
fn generate_final_interface() {
    let scanned = scanned_files();
    match JavaStructure::builder()
        .structure_type(JavaStructureType::Interface)
        .visibility(JavaVisibility::Private)
        .is_final(true)
        .name("JavaFinalInterface")
        .build()
    {
        Ok(structure) => {
            assert_eq!(JavaStructureType::Interface, structure.get_type());
            assert_eq!(0, structure.get_annotations().len());
            assert_eq!(JavaVisibility::Private, structure.get_visibility());
            assert!(!structure.is_static());
            assert!(structure.is_final());
            assert!(!structure.is_abstract());
            assert_eq!("JavaFinalInterface", structure.get_name());
            assert!(structure.get_extended_class(&scanned).is_none());
            assert_eq!(0, structure.get_implemented_interfaces(&scanned).len());
            assert_eq!(0, structure.get_fields().len());
            assert_eq!(0, structure.get_methods().len());
            assert_eq!(0, structure.get_imports(&scanned).len());
        }
        Err(err) => panic!("{}", err),
    };
}

#[test]
fn structure_without_name_is_refused() {
    assert!(JavaStructure::builder().structure_type(JavaStructureType::Class).build().is_err());
    assert!(JavaStructure::builder().name("NoType").build().is_err());
}

#[test]
fn file_content_of_built_class() {
    let structure = JavaStructure::builder()
        .structure_type(JavaStructureType::Class)
        .visibility(JavaVisibility::Public)
        .name("EmptyService")
        .annotations(vec![_create_service_annotation_usage()])
        .build()
        .expect("A named class is valid");

    let content = JavaFile::file_content(&path_of("EmptyService"), &structure, &vec![]);

    assert_eq!(
        "package org.test;\n\nimport org.springframework.stereotype.Service;\n\n@Service\npublic class EmptyService {\n}\n",
        content
    );
}

#[test]
fn data_type_of_scanned_file() {
    let (file, _) = scan("JavaDataTypeClass", "package org.test;\n\npublic class JavaDataTypeClass {\n}\n");

    let returned_type = genco::java::data_type::JavaDataType::from_path(&file);
    assert_eq!("org.test.JavaDataTypeClass", returned_type.get_import_opt().unwrap().get_route());

    match genco::java::dto::java_data_type::JavaDataType::new_from_path(&file) {
        genco::java::dto::java_data_type::JavaDataType::FromImport(import) => {
            assert!(import.is_explicit_import());
            assert_eq!("org.test.JavaDataTypeClass", import.get_route());
        }
        _ => panic!("Expected class data type"),
    }
}

#[test]
fn class_with_arithmetic_method() {
    let source = "package org.test;

public class JavaExpressionArithmetic {

    public int twice(String a, Integer b) {
        return a.length() + b * 2;
    }
}
";
    let (file, _) = scan("JavaExpressionArithmetic", source);
    let methods = file.get_structure().get_methods();

    assert_eq!(1, methods.len());
    assert_eq!("twice", methods[0].get_name());
    assert_eq!(2, methods[0].get_parameters().len());
    assert!(methods[0].get_imports().is_empty());
}

#[test]
fn method_with_primitive_parameter_is_not_read() {
    let source = "package org.test;

public class PrimitiveParameters {

    public int sum(int a, int b) {
        return a + b;
    }
}
";
    let (file, _) = scan("PrimitiveParameters", source);

    assert_eq!(0, file.get_structure().get_methods().len());
}

#[test]
fn class_builder_needs_a_name_and_gives_the_file() {
    match JavaClass::builder().folder(ROOT).build() {
        Ok(_) => panic!("A class needs a name"),
        Err(e) => assert!(e.starts_with("Invalid java class build, name is mandatory.")),
    }

    let (path, content) = JavaClass::builder()
        .folder(ROOT)
        .name("Service")
        .visibility(JavaVisibility::Public)
        .build()
        .expect("A named class in a folder is valid");
    assert_eq!(path_of("Service"), path);
    assert_eq!("package org.test;\n\npublic class Service {\n}\n", content);
}

fn find_node<'a>(node: &'a JavaNode, t: JavaNodeType) -> Option<&'a JavaNode> {
    if node.get_node_type() == Some(t) {
        return Some(node);
    }
    node.get_children().iter().find_map(|c| find_node(c, t))
}

#[test]
fn method_with_unknown_parameter_type_is_refused() {
    let path = path_of("Runner");
    let source = "package org.test;\n\npublic class Runner {\n    public void run(Unknown u) {\n    }\n}\n";
    let root = parse(source, &path).expect("The source parses");
    let cache = FileCache::new(&path, source, &vec![path.clone()]);
    let method_node = find_node(&root, JavaNodeType::MethodDecl).expect("The class declares a method");

    match JavaMethod::new_from_node(method_node, &JavaFileImports::new(), &cache) {
        Ok(_) => panic!("An unknown parameter type is refused"),
        Err(e) => assert_eq!("Invalid java method parameters, Import for \"Unknown\" not found.", e),
    }
}

#[test]
fn field_without_name_is_refused() {
    let type_node = JavaNode::from_parts("A.java", 0, 3, Vec::new(), Some(JavaNodeType::IntegralType), "int");
    let field_node = JavaNode::from_parts(
        "A.java",
        0,
        9,
        vec![type_node],
        Some(JavaNodeType::FieldDeclaration),
        "int \"a\";",
    );
    match genco::java::dto::java_field::JavaField::new(&field_node, &JavaFileImports::new(), "A.java") {
        Ok(_) => panic!("A field without a name is refused"),
        Err(e) => assert_eq!(
            "Invalid java field declaration (name is empty) \"\"int \\\"a\\\";\"\" in file\n\"A.java\"\n",
            e
        ),
    }
}

fn tree(kind: &str, start: usize, end: usize, children: Vec<SyntaxTree>) -> SyntaxTree {
    SyntaxTree { kind: kind.to_string(), start_byte: start, end_byte: end, start_column: 0, children }
}

#[test]
fn new_record_from_path() {
    // The syntax tree of a record declaration, as a grammar that knows records gives it (the
    // bundled grammar reads a record at the top of a file as a variable declaration).
    let source = "package org.test;\n\npublic record JavaRecord(String name) {\n}\n";
    let path = path_of("JavaRecord");
    let syntax = tree(
        "program",
        0,
        61,
        vec![
            tree(
                "package_declaration",
                0,
                17,
                vec![
                    tree("package", 0, 7, vec![]),
                    tree(
                        "scoped_identifier",
                        8,
                        16,
                        vec![tree("identifier", 8, 11, vec![]), tree(".", 11, 12, vec![]), tree("identifier", 12, 16, vec![])],
                    ),
                    tree(";", 16, 17, vec![]),
                ],
            ),
            tree(
                "record_declaration",
                19,
                60,
                vec![
                    tree("modifiers", 19, 25, vec![tree("public", 19, 25, vec![])]),
                    tree("record", 26, 32, vec![]),
                    tree("identifier", 33, 43, vec![]),
                    tree(
                        "formal_parameters",
                        43,
                        56,
                        vec![
                            tree("(", 43, 44, vec![]),
                            tree(
                                "formal_parameter",
                                44,
                                55,
                                vec![tree("type_identifier", 44, 50, vec![]), tree("identifier", 51, 55, vec![])],
                            ),
                            tree(")", 55, 56, vec![]),
                        ],
                    ),
                    tree("class_body", 57, 60, vec![tree("{", 57, 58, vec![]), tree("}", 59, 60, vec![])]),
                ],
            ),
        ],
    );
    let root = node_from_tree(&syntax, &path, source);
    let cache = FileCache::new(&path, source, &vec![path.clone()]);
    let file = JavaFile::from_parsed(&path, &root, &cache)
        .expect("The structure is readable")
        .expect("The file declares a structure");
    match JavaRecord::from(file) {
        Ok(java_record) => assert_eq!("JavaRecord", java_record.get_name()),
        Err(err) => panic!("{}", err),
    }
}
