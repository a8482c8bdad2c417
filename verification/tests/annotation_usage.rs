use genco::java::annotation_usage::JavaAnnotationUsage;
use genco::java::dependency::org::junit::jupiter::junit_jupiter_api::java_junit_jupiter_api_factory::_create_test_annotation_usage;
use genco::java::dependency::org::springframework::spring_beans::java_spring_beans_factory::_create_autowired_annotation_usage;
use genco::java::dependency::org::springframework::spring_context::java_spring_context_factory::_create_service_annotation_usage;
use genco::java::dto::java_annotation_usage::JavaAnnotationUsage as DtoAnnotationUsage;
use genco::java::dto::java_import::JavaImport;
use genco::java::indentation_config::JavaIndentation;

#[test]
fn annotation_usage_to_string() {
    let annotation = JavaAnnotationUsage::builder()
        .import("org.springframework.stereotype.Service")
        .build()
        .expect("Annotation must be created");

    assert_eq!("@Service", annotation.to_string());
}

#[test]
fn annotation_usage_get_imports() {
    let import_package = "org.springframework.stereotype.Service";
    let annotation = JavaAnnotationUsage::builder()
        .import(import_package)
        .build()
        .expect("Annotation must be created");

    let result_imports = annotation.get_imports();

    assert_eq!(1, result_imports.len());
    if let Some(result_import) = result_imports.get(0) {
        assert_eq!(import_package, result_import.get_route());
    }
}

#[test]
fn java_annotation_usage_to_string() {
    let import = JavaImport::new_explicit_import_requiring_m2_repo_scan(
        "org.springframework.stereotype.Service",
    )
    .expect("Java explicit import is valid");
    let annotation = DtoAnnotationUsage::builder().import(import).build();

    assert_eq!("@Service", annotation.to_string());
}

#[test]
fn java_annotation_usage_get_imports() {
    let import_package = "org.springframework.stereotype.Service";
    let annotation = DtoAnnotationUsage::builder()
        .import(
            JavaImport::new_explicit_import_requiring_m2_repo_scan(import_package)
                .expect("Java explicit import is valid"),
        )
        .build();

    let result_imports = annotation.get_imports();

    assert_eq!(1, result_imports.len());
    if let Some(result_import) = result_imports.get(0) {
        assert_eq!(import_package, result_import.get_route());
    }
}

#[test]
fn annotation_usage_without_import_is_refused() {
    match JavaAnnotationUsage::builder().build() {
        Ok(_) => panic!("An annotation needs an import"),
        Err(e) => assert_eq!("Missing java annotation explicit import", e),
    }
}

#[test]
fn annotation_usage_with_wildcard_import_is_refused() {
    assert!(JavaAnnotationUsage::builder().import("org.test.*").build().is_err());
}

#[test]
fn annotation_usage_file_string_is_indented() {
    let annotation = _create_service_annotation_usage();
    let mut indentation = JavaIndentation::default();
    indentation.increase_level();

    assert_eq!("    @Service\n", annotation.to_file_string(&indentation));
}

#[test]
fn dependency_annotations_name_their_routes() {
    assert_eq!("org.springframework.stereotype.Service", _create_service_annotation_usage().get_self_import().get_route());
    assert_eq!(
        "org.springframework.beans.factory.annotation.Autowired",
        _create_autowired_annotation_usage().get_self_import().get_route()
    );
    assert_eq!("org.junit.jupiter.api.Test", _create_test_annotation_usage().get_self_import().get_route());
    assert_eq!("Test", _create_test_annotation_usage().get_name());
}
