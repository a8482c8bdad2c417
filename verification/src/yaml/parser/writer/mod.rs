pub mod yaml_writer;
