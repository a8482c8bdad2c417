pub mod statement;
pub mod data_type;
pub mod annotation_usage;
pub mod indentation_config;
pub mod interface;
pub mod method;
pub mod recipe;
pub mod record;
pub mod dependency;
pub mod dto;
pub mod generator;
pub mod parser;
pub mod scanner;
