pub mod java_annotation;
pub mod java_expression;
pub mod java_node;
