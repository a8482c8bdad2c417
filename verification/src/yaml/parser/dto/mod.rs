pub mod yaml_node;
pub mod yaml_node_type;
