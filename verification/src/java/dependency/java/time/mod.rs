pub mod java_time_factory;
