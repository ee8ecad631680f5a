//! Process memory collection: what it records, which processes and regions
//! it selects, and how its output is named.
pub mod models;
pub mod filters;
pub mod helpers;
pub mod export;
pub mod collector;
pub mod maps;
pub mod platforms;
