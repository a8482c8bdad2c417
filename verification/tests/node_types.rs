use genco::yaml::parser::dto::yaml_node_type::YamlNodeType;
use genco::java::parser::java_node_type::JavaNodeType;

#[test]
fn kind_names_give_their_kinds() {
    assert_eq!(Ok(JavaNodeType::ClassDecl), JavaNodeType::from_str("class_declaration"));
    assert_eq!(Ok(JavaNodeType::Program), JavaNodeType::from_str("program"));
    assert_eq!(Ok(JavaNodeType::GreaterThan), JavaNodeType::from_str(">"));
}

#[test]
fn other_names_give_no_kind() {
    assert_eq!(Err(()), JavaNodeType::from_str(""));
    assert_eq!(Err(()), JavaNodeType::from_str("Class"));
    assert_eq!(Err(()), JavaNodeType::from_str("class_declaration "));
}

#[test]
fn yaml_kind_names_give_their_kinds() {
    assert_eq!(Ok(YamlNodeType::BlockMappingPair), YamlNodeType::from_str("block_mapping_pair"));
    assert_eq!(Ok(YamlNodeType::QuotationMark), YamlNodeType::from_str("\""));
    assert_eq!(Err(()), YamlNodeType::from_str("block_mapping_pai"));
}
