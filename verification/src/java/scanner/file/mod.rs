pub mod java_file_imports;
pub mod java_modifiers;
pub mod java_structure_type;
pub mod java_structure;
pub mod java_file;
pub mod dto;
pub mod java_file_scanner;
