pub mod java_spring_beans_factory;
