pub mod java_annotation_generator;
pub mod java_class_skeleton;
pub mod java_data_type;
pub mod java_method_generator;
pub mod java_steps_generator;
pub mod java_variable_generator;
pub mod java_visibility;
