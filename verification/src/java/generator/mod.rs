pub mod dto;
pub mod file_generator;
