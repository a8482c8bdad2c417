use genco::java::data_type::JavaDataType;
use genco::java::dependency::java::time::java_time_factory::_create_offset_date_time;
use genco::java::dto::java_data_type::{JavaBasicDataType, JavaDataType as DtoDataType};
use genco::java::dto::java_field::JavaField;
use genco::java::dto::java_variable::JavaVariable;
use genco::java::indentation_config::JavaIndentation;
use genco::java::method::JavaMethod;

#[test]
fn data_type_java_get_imports_trait() {
    let java_type = JavaDataType::int_type();

    let import_opt = java_type.get_import_opt();

    assert!(import_opt.is_none())
}

#[test]
fn data_type_to_string_basic_data_type() {
    assert_eq!("int", JavaDataType::int_type().to_string());
    assert_eq!("String", JavaDataType::string().to_string());
}

#[test]
fn java_data_type_java_get_imports_trait() {
    let java_type = DtoDataType::Basic(JavaBasicDataType::Int);

    let import_opt = java_type.get_import();

    assert!(import_opt.is_none())
}

#[test]
fn java_data_type_to_string_basic_data_type() {
    assert_eq!("int", DtoDataType::Basic(JavaBasicDataType::Int).to_string());
    assert_eq!("String", DtoDataType::Basic(JavaBasicDataType::String).to_string());
}

#[test]
fn basic_data_type_names() {
    assert_eq!("Integer", JavaDataType::new_basic_data_type("Integer").unwrap().to_string());
    assert_eq!("boolean", JavaDataType::new_basic_data_type("boolean").unwrap().to_string());
    assert!(JavaDataType::new_basic_data_type("Foo").is_none());
    assert_eq!("long", JavaDataType::long().to_string());
    assert_eq!("double", JavaDataType::double().to_string());
}

#[test]
fn offset_date_time_is_imported() {
    let offset = _create_offset_date_time();

    assert_eq!("OffsetDateTime", offset.to_string());
    assert_eq!("java.time.OffsetDateTime", offset.get_import_opt().unwrap().get_route());
}

#[test]
fn java_variable_builder() {
    match JavaVariable::builder()
        .is_final(true)
        .data_type(DtoDataType::Basic(JavaBasicDataType::Int))
        .name("id")
        .build()
    {
        Ok(int) => {
            assert_eq!("final int id", int.to_string());
        }
        Err(err) => panic!("{}", err),
    }
}

#[test]
fn to_string_int() {
    let int = JavaVariable::new_final_int("id");

    assert_eq!("final int id", int.to_string());
}

#[test]
fn get_import_basic_type() {
    let int = JavaVariable::new_final_int("id");

    assert!(int.get_import().is_none());
}

#[test]
fn variable_without_name_is_refused() {
    assert!(JavaVariable::builder().data_type(DtoDataType::Basic(JavaBasicDataType::Int)).build().is_err());
    assert_eq!("final String name", JavaVariable::new_final_string("name").to_string());
}

#[test]
fn java_field_get_imports_empty() {
    match JavaField::builder()
        .data_type(DtoDataType::Basic(JavaBasicDataType::String))
        .name("field")
        .build()
    {
        Ok(field) => {
            assert!(field.get_imports().is_empty());
        }
        Err(err) => panic!("{}", err),
    }
}

#[test]
fn field_is_written_with_its_modifiers() {
    let field = JavaField::builder()
        .data_type(DtoDataType::Basic(JavaBasicDataType::Int))
        .name("count")
        .is_static(true)
        .is_final(true)
        .build()
        .expect("A field with a type and a name is valid");

    assert_eq!("static final int count;\n", field.get_str(&JavaIndentation::default()));
}

#[test]
fn get_method_imports_empty_method() {
    let method = JavaMethod::builder()
        .name("newMethodWithoutImports")
        .build()
        .expect("newMethodWithoutImports is expected to be valid");

    let imports = method.get_imports();

    assert!(imports.is_empty());
}

#[test]
fn method_without_name_is_refused() {
    assert!(JavaMethod::builder().build().is_err());
}

#[test]
fn method_is_written_with_its_parameters() {
    let method = JavaMethod::builder()
        .name("run")
        .parameters(vec![JavaVariable::new_final_int("id")])
        .build()
        .expect("run is valid");
    let mut text = String::new();
    method.write_to_string(&mut text, &JavaIndentation::default());

    assert_eq!("void run(final int id) {\n}\n", text);
}

#[test]
fn builder_default() {
    let indentation = JavaIndentation::builder().build();

    assert_eq!("".to_string(), indentation.get_current_indentation());
}

#[test]
fn builder_increase_level() {
    let mut indentation = JavaIndentation::builder().current_level(1).build();
    indentation.increase_level();

    assert_eq!("        ".to_string(), indentation.get_current_indentation());
}

#[test]
fn builder_increase_level_twice() {
    let mut indentation = JavaIndentation::builder().build();
    indentation.increase_level();
    indentation.increase_level();

    assert_eq!("        ".to_string(), indentation.get_current_indentation());
}

#[test]
fn increase_then_decrease_level_restores_indentation() {
    let mut indentation = JavaIndentation::builder().base_indentation("\t").current_level(2).build();
    indentation.increase_level();
    indentation.decrease_level();

    assert_eq!("\t\t", indentation.get_current_indentation());
}
