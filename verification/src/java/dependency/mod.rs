pub mod java;
pub mod org;
