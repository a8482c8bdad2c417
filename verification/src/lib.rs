//! Code generation and scanning for Java projects, and merging of YAML documents.
use vstd::prelude::*;

pub mod common;
pub mod java;
pub mod yaml;

verus! {

} // verus!
