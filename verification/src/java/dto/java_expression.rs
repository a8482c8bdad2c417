//! A Java expression; only its presence is recorded so far.
use vstd::prelude::*;

use crate::java::parser::java_node::JavaNode;

verus! {

/// A Java expression.
#[derive(Debug, Copy, Clone)]
pub struct JavaExpression {}

impl JavaExpression {
    /// The expression at `_node`.
    pub fn new(_node: &JavaNode) -> (r: Self) {
        JavaExpression {  }
    }
}

} // verus!
