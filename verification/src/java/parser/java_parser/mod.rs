pub mod java_parser;
