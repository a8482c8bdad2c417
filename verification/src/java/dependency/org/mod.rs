pub mod junit;
pub mod springframework;
