//! Configuration: artifact definitions, default configurations and path handling.
pub mod artifact_types;
pub mod collection_config;
pub mod default_configs;
pub mod env_vars;
pub mod regex_config;
