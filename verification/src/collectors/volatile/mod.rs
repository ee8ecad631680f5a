//! Volatile system data: what is recorded of a running system.
pub mod models;
