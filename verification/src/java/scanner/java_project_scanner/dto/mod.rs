pub mod java_project_files_cache;
