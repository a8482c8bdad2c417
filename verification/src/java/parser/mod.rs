pub mod java_node_type;
pub mod java_node;
pub mod java_parser;
pub mod dto;
