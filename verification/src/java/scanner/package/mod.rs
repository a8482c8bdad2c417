pub mod java_dependency_scanner;
pub mod java_package_scanner;
