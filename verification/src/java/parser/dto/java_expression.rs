//! Java expressions.
pub use crate::java::dto::java_expression::JavaExpression;
