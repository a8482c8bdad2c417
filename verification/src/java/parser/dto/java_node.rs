//! The nodes of parsed Java source files.
pub use crate::java::parser::java_node::JavaNode;
