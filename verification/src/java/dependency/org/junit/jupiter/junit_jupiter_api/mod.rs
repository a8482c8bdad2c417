pub mod java_junit_jupiter_api_factory;
