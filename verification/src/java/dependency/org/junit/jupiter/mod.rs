pub mod junit_jupiter_api;
