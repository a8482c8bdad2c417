pub mod dto;
pub mod writer;
pub mod yaml_parser;
