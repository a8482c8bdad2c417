use genco::java::dto::java_import::JavaImport;
use genco::java::scanner::file::java_file_imports::JavaFileImports;

#[test]
fn new_explicit_import() {
    let import = JavaImport::new_explicit_import_requiring_m2_repo_scan("org.test")
        .expect("Java explicit import is valid");

    assert!(import.is_explicit_import());
    assert!(!import.is_wildcard_import());
    assert_eq!("org.test", import.get_route());
}

#[test]
fn new_wildcard_import() {
    let import = JavaImport::new_from_route("org.test.*");

    assert!(import.is_wildcard_import());
    assert!(!import.is_explicit_import());
    assert_eq!("org.test.*", import.get_route());
}

#[test]
fn get_last_node() {
    let import = JavaImport::new_explicit_import_requiring_m2_repo_scan("org.test.LastNodeClass")
        .expect("Java explicit import is valid");

    assert!(import.is_explicit_import());
    assert!(!import.is_wildcard_import());
    assert_eq!("org.test.LastNodeClass", import.get_route());
    assert_eq!("LastNodeClass", import.get_last_node());
}

#[test]
fn to_string_hardcoded_import() {
    let import = JavaImport::new_explicit_import_requiring_m2_repo_scan("org.test.Class")
        .expect("Java explicit import is valid");

    assert_eq!("import org.test.Class;", import.to_string());
}

#[test]
fn explicit_import_of_wildcard_route_is_refused() {
    assert!(JavaImport::new_explicit_import_without_m2_repo_scan("org.test.*").is_err());
}

#[test]
fn import_of_project_file() {
    let import = JavaImport::new_explicit_import_from_file("/project/src/main/java/org/test/JavaImportClass.java")
        .expect("A file under src/main/java gives an import");

    assert_eq!("org.test.JavaImportClass", import.get_route());
    assert_eq!("org.test", import.get_package_route());
    assert_eq!("import org.test.JavaImportClass;", import.to_string());
    assert_eq!("JavaImportClass", import.get_last_node());
    assert!(import.match_type_id("JavaImportClass"));
    assert!(!import.match_type_id("JavaImportClassFake"));
}

#[test]
fn import_of_file_that_is_no_java_file_is_refused() {
    match JavaImport::new_explicit_import_from_file("/project/src/main/java/org/test/Notes.txt") {
        Ok(_) => panic!("A text file gives no import"),
        Err(e) => assert_eq!(
            "Can not create an explicit java import using non java file:\n\t\"/project/src/main/java/org/test/Notes.txt\"\n",
            e
        ),
    }
}

#[test]
fn specific_file_of_imports() {
    let import = JavaImport::new_explicit_import_from_file("/project/src/main/java/org/test/Found.java").unwrap();
    assert_eq!("/project/src/main/java/org/test/Found.java", import.get_specific_file().unwrap());

    match JavaImport::new_from_route("org.test.*").get_specific_file() {
        Ok(_) => panic!("A wildcard import names no file"),
        Err(e) => assert_eq!("Java import \"import org.test.*;\" must be explicit to the its specific file.", e),
    }
    match JavaImport::new_from_route("org.test.Found").get_specific_file() {
        Ok(_) => panic!("A route import names no file"),
        Err(e) => assert_eq!("Specific file not found for import \"import org.test.Found;\"", e),
    }
}

fn get_java_imports_scan_with(input_route: &str) -> JavaFileImports {
    let imports_vec = vec![JavaImport::new_explicit_import_requiring_m2_repo_scan(input_route)
        .expect("Java explicit import is valid")];

    let mut imports = JavaFileImports::new();
    assert!(imports.is_empty());
    for import in &imports_vec {
        let irrelevant_import_end_byte_for_test_stub = 0;
        imports.insert(import.clone(), irrelevant_import_end_byte_for_test_stub);
    }
    assert!(!imports.is_empty());
    assert_eq!(imports_vec.len(), imports.count());

    imports
}

#[test]
fn get_explicit_import_matches() {
    let imports = get_java_imports_scan_with("org.test.Class");

    let result = imports.get_explicit_import("Class");
    match result {
        Ok(import) => assert!(import.is_explicit_import()),
        Err(error_msg) => panic!("{}", error_msg),
    }
}

#[test]
fn get_explicit_import_error() {
    let imports = get_java_imports_scan_with("org.test.Class");

    let result = imports.get_explicit_import("NotFoundClass");
    match result {
        Ok(_) => panic!("It should not return any JavaImport"),
        Err(err) => assert_eq!("Import for \"NotFoundClass\" not found.", err),
    }
}

#[test]
fn later_import_of_same_name_wins() {
    let mut imports = JavaFileImports::new();
    imports.insert(JavaImport::new_from_route("org.first.Class"), 10);
    imports.insert(JavaImport::new_from_route("org.second.Class"), 20);
    imports.insert(JavaImport::new_from_route("org.other.*"), 30);

    assert_eq!(2, imports.count());
    assert_eq!("org.second.Class", imports.get_explicit_import("Class").unwrap().get_route());
    assert_eq!(Some(30), imports.get_last_import_end_byte());
}

#[test]
fn imports_are_written_one_per_line() {
    let imports = vec![JavaImport::new_from_route("org.a.A"), JavaImport::new_from_route("org.b.B")];

    assert_eq!("import org.a.A;\nimport org.b.B;\n\n", JavaFileImports::get_file_string_with_trailing_newline(&imports));
    assert_eq!("", JavaFileImports::get_file_string_with_trailing_newline(&vec![]));
}

#[test]
fn file_route_is_the_route_of_its_import() {
    let path = "/p/src/main/java/org/test/Found.java";
    let route = genco::java::scanner::package::java_dependency_scanner::file_import_route(path).unwrap();

    assert_eq!("org.test.Found", route);
    assert_eq!(route, JavaImport::new_explicit_import_from_file(path).unwrap().get_route());
    let files = vec![path.to_string(), "/p/src/main/java/org/test/Other.java".to_string()];
    assert_eq!(
        vec![path.to_string()],
        genco::java::scanner::package::java_dependency_scanner::search_imports("org.test.Found", &files)
    );
}

#[test]
fn imports_are_sorted_by_route() {
    let imports = vec![
        JavaImport::new_from_route("org.b.B"),
        JavaImport::new_from_route("org.a.A"),
        JavaImport::new_from_route("org.a"),
    ];
    let sorted = genco::java::scanner::file::java_file_imports::get_sorted_asc(imports);
    let routes: Vec<String> = sorted.iter().map(|i| i.get_route()).collect();

    assert_eq!(vec!["org.a".to_string(), "org.a.A".to_string(), "org.b.B".to_string()], routes);
}
