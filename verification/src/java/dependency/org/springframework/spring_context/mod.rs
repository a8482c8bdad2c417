pub mod java_spring_context_factory;
