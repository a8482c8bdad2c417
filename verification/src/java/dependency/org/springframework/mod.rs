pub mod spring_beans;
pub mod spring_context;
