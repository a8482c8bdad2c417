pub mod java_package;
pub mod java_structure;
pub mod java_file;
pub mod java_imports;
