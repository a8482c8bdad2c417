pub mod java_method_generator;
