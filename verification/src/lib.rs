//! Forensic artifact collection: configuration, path handling, filtering and
//! upload planning, with their contracts proved by Verus.
pub mod cli;
pub mod text;
pub mod tokens;
pub mod constants;
pub mod host;
pub mod config;
pub mod collectors;
pub mod cloud;
pub mod laws;
pub mod collection_laws;
