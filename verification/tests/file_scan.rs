use genco::common::file_cache::FileCache;
use genco::java::parser::dto::java_annotation::JavaAnnotation;
use genco::java::parser::java_node_type::JavaNodeType;
use genco::java::parser::java_parser::java_parser::parse;
use genco::java::scanner::file::dto::java_file::JavaFile as ScannedJavaFile;
use genco::java::scanner::file::dto::java_imports::JavaImports;
use genco::java::scanner::file::dto::java_structure::JavaStructure as ScannedJavaStructure;
use genco::java::scanner::file::java_file::JavaFile;
use genco::java::scanner::file::java_file_scanner::{scan, scan_tree};
use genco::java::scanner::file::java_structure_type::JavaStructureType;
use genco::java::scanner::java_project_scanner::dto::java_project_files_cache::JavaProjectFilesCache;

const BASIC_APPLICATION: &str = "package com.org.demo;

@SpringBootApplication
public class BasicApplication {

    public static void main(String[] args) {
        SpringApplication.run(BasicApplication.class, args);
    }
}
";

const BASIC_APPLICATION_WITH_IMPORTS: &str = "package org.test;

import org.springframework.boot.SpringApplication;
import org.springframework.boot.autoconfigure.SpringBootApplication;

@SpringBootApplication
public class BasicApplication {

    public static void main(String[] args) {
        SpringApplication.run(BasicApplication.class, args);
    }
}
";

const INVALID: &str = "public class Invalid {\n}\n";

const ROOT: &str = "/project/src/main/java/org/test";

fn from_parsed(name: &str, source: &str) -> Result<JavaFile, String> {
    let path = format!("{}/{}", ROOT, name);
    let root = parse(source, &path).expect("The source parses");
    let cache = FileCache::new(&path, source, &vec![path.clone()]);
    JavaFile::from_parsed(&path, &root, &cache).expect("The structure is readable")
}

#[test]
fn java_file_scanner_scan_basic_application() {
    match scan(BASIC_APPLICATION, "BasicApplication.java") {
        Ok(java_file) => assert_eq!("com.org.demo", java_file.get_package().to_string()),
        Err(e) => panic!("{}", e),
    }
}

#[test]
fn java_file_scanner_scan_invalid() {
    match scan(INVALID, "Invalid.java") {
        Ok(_) => panic!("It should not return a valid java file struct"),
        Err(e) => assert_eq!("Java package not found.", e),
    }
}

#[test]
fn file_scan_without_structure() {
    match scan("package org.test;\n", "Empty.java") {
        Ok(_) => panic!("It should not return a valid java file struct"),
        Err(e) => assert_eq!("Java structure not found.", e),
    }
}

#[test]
fn file_scan_refuses_imports() {
    let source = "package org.test;\n\nimport org.other.Thing;\n\npublic class A {\n}\n";
    match scan(source, "A.java") {
        Ok(_) => panic!("Imports are not read by the file scan"),
        Err(e) => assert_eq!("Java imports are not read by the file scan.", e),
    }
}

#[test]
fn file_scan_reads_the_structure() {
    let source = "package org.test;\n\n@Deprecated\npublic class A {\n    private int a;\n    void run() {}\n}\n";
    let root = parse(source, "A.java").unwrap();
    let file = scan_tree(&root).unwrap();
    assert_eq!("org.test", file.get_package().to_string());
    assert!(ScannedJavaFile::new(&root).is_ok());
    let class = root
        .get_children()
        .iter()
        .find(|c| c.get_node_type() == Some(JavaNodeType::ClassDecl))
        .unwrap();
    let mut structure = ScannedJavaStructure::new(class);
    structure.add_annotation(JavaAnnotation::new(class));
}

#[test]
fn no_imports_counted() {
    assert_eq!(0, JavaImports::new().count());
}

#[test]
fn files_cache_keeps_read_files() {
    let mut cache = JavaProjectFilesCache::new();
    cache.try_to_add_file(BASIC_APPLICATION, "BasicApplication.java");
    cache.try_to_add_file(INVALID, "Invalid.java");
    assert_eq!(1, cache.count_files_added());
}

#[test]
fn java_file_scan_basic_application() {
    let java_file = from_parsed("BasicApplication.java", BASIC_APPLICATION_WITH_IMPORTS).expect("A valid file");
    assert_eq!(2, java_file.get_file_imports().count());
    let structure = java_file.get_structure();
    assert_eq!(JavaStructureType::Class, structure.get_type());
    let annotations = structure.get_annotations();
    assert_eq!(1, annotations.len());
    assert_eq!("SpringBootApplication", annotations[0].get_name());
}

#[test]
fn scan_basic_enum() {
    let source = "package org.test;\n\npublic enum BasicEnumName {\n    FIRST,\n    SECOND\n}\n";
    let java_file = from_parsed("BasicEnumName.java", source).expect("A valid file");
    assert_eq!(0, java_file.get_file_imports().count());
    let structure = java_file.get_structure();
    assert_eq!(0, structure.get_annotations().len());
    assert_eq!(JavaStructureType::Enum, structure.get_type());
}

#[test]
fn java_file_scan_invalid() {
    match from_parsed("Invalid.java", "package org.test;\n") {
        Ok(_) => panic!("It should not return a valid java file struct"),
        Err(e) => assert!(e.contains("Java structure not found in file")),
    }
}
