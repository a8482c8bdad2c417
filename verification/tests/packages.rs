use genco::common::file_cache::FileCache;
use genco::java::parser::java_node_type::JavaNodeType;
use genco::java::parser::java_parser::java_parser::parse;
use genco::java::scanner::dto::java_project_files_cache::JavaProjectFilesCache;
use genco::java::scanner::file::dto::java_package::JavaPackage;
use genco::java::scanner::package::java_package_scanner::get_package_route_opt_from_dir_no_check;

#[test]
fn package_of_declaration() {
    let source = "package com.org.demo;\n\npublic class BasicApplication {\n}\n";
    let root = parse(source, "/p/src/main/java/com/org/demo/BasicApplication.java").expect("The source parses");
    let declaration = root
        .get_children()
        .iter()
        .find(|c| c.get_node_type() == Some(JavaNodeType::PackageDecl))
        .expect("The file declares a package");

    assert_eq!("com.org.demo", JavaPackage::new(declaration).to_string());
    assert_eq!("", JavaPackage::new(&root).to_string());
    let _ = FileCache::new("x", "y", &vec![]);
}

#[test]
fn package_of_directory() {
    assert_eq!(Some("com.org.demo".to_string()), get_package_route_opt_from_dir_no_check("/p/src/main/java/com/org/demo"));
    assert_eq!(None, get_package_route_opt_from_dir_no_check("/p/src/test"));
}

#[test]
fn files_cache_counts_added_files() {
    let mut cache = JavaProjectFilesCache::new();
    assert_eq!(0, cache.count_files_added());
    cache.add_file("/p/src/main/java/A.java");
    cache.add_file("/p/src/main/java/B.java");

    assert_eq!(2, cache.count_files_added());
}
