//! A Java statement; only its presence is recorded so far.
use vstd::prelude::*;

use crate::java::parser::java_node::JavaNode;

verus! {

/// A Java statement.
#[derive(Debug, Clone)]
pub struct JavaStatement {}

impl JavaStatement {
    /// The statement at `_node`.
    pub fn new(_node: &JavaNode) -> (r: Self) {
        JavaStatement {  }
    }
}

} // verus!
