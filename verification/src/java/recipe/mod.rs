pub mod precondition;
pub mod recipe;
pub mod step;
