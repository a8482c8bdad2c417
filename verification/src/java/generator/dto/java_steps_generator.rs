//! The body of a generated method.
use vstd::prelude::*;

verus! {

/// The steps of the body of a generated method.
#[derive(Debug, Copy, Clone)]
pub struct JavaStepsGenerator {}

impl JavaStepsGenerator {
    /// No steps.
    pub fn new() -> (r: Self) {
        JavaStepsGenerator {}
    }
}

} // verus!
