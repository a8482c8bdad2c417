pub mod file;
pub mod package;
pub mod dto;
pub mod java_project_scanner;
